//! Mapped-file views: a read-only view over a file's bytes, and a read/write
//! view whose length can change, modelling a file and the mapping over its
//! whole current length.
use vstd::prelude::*;

verus! {

/// A sequence of `n` zero bytes: the content that growing a file fills new
/// space with.
pub open spec fn zeros(n: nat) -> Seq<u8> {
    Seq::new(n, |i: int| 0u8)
}

/// The bytes a view holds after its length changes to `n`: shrinking discards
/// trailing bytes, growing fills the new space with zeros.
pub open spec fn resized_bytes(s: Seq<u8>, n: nat) -> Seq<u8> {
    if n <= s.len() {
        s.take(n as int)
    } else {
        s + zeros((n - s.len()) as nat)
    }
}

/// The bytes of `s` with `b` copied in at offset `at`, everything else
/// unchanged.
pub open spec fn spliced(s: Seq<u8>, at: nat, b: Seq<u8>) -> Seq<u8> {
    s.take(at as int) + b + s.skip((at + b.len()) as int)
}

/// The error surfaced when a file cannot be opened or created, its length
/// cannot be changed, or the mapping cannot be acquired or flushed. The
/// library's own operations never fail; values of this type are built by the
/// unverified layer that performs the OS calls.
#[derive(Debug)]
pub struct IoError {
    message: String,
}

impl View for IoError {
    type V = Seq<char>;

    closed spec fn view(&self) -> Seq<char> {
        self.message@
    }
}

impl IoError {
    /// Wraps a description of the failed OS call.
    pub fn new(message: String) -> (e: Self)
        ensures
            e@ == message@,
    {
        IoError { message }
    }

    /// The description the error was built with.
    pub fn message(&self) -> (m: &String)
        ensures
            m@ == self@,
    {
        &self.message
    }
}

/// A read-only mapped view: the bytes of an existing file at the moment it
/// was opened. It exposes no mutation operation.
pub struct MmapFile {
    bytes: Vec<u8>,
}

impl View for MmapFile {
    type V = Seq<u8>;

    closed spec fn view(&self) -> Seq<u8> {
        self.bytes@
    }
}

impl MmapFile {
    /// Opens a view over the given file content.
    pub fn open(bytes: Vec<u8>) -> (f: Self)
        ensures
            f@ == bytes@,
    {
        MmapFile { bytes }
    }

    /// The view's length in bytes.
    pub fn len(&self) -> (n: usize)
        ensures
            n == self@.len(),
    {
        self.bytes.len()
    }

    /// Whether the view holds no bytes.
    pub fn is_empty(&self) -> (b: bool)
        ensures
            b == (self@.len() == 0),
    {
        self.bytes.len() == 0
    }

    /// Read access to the full mapped extent.
    pub fn as_bytes(&self) -> (r: &[u8])
        ensures
            r@ == self@,
    {
        self.bytes.as_slice()
    }
}

/// A read/write mapped view: a file's bytes together with the capacity to
/// overwrite them and to change the file's length.
pub struct MmapMutFile {
    bytes: Vec<u8>,
}

impl View for MmapMutFile {
    type V = Seq<u8>;

    closed spec fn view(&self) -> Seq<u8> {
        self.bytes@
    }
}

impl MmapMutFile {
    /// Allocates a view of `size` zero bytes, the content of a freshly
    /// created file of that length.
    pub fn create_with_size(size: usize) -> (f: Self)
        requires
            1 <= size,
        ensures
            f@ == zeros(size as nat),
            f@.len() == size,
    {
        let bytes: Vec<u8> = vec![0u8; size];
        proof {
            assert(bytes@ =~= zeros(size as nat));
        }
        MmapMutFile { bytes }
    }

    /// Allocates a view of the default size.
    pub fn create() -> (f: Self)
        ensures
            f@ == zeros(crate::DEFAULT_SIZE as nat),
            f@.len() == crate::DEFAULT_SIZE,
    {
        Self::create_with_size(crate::DEFAULT_SIZE)
    }

    /// The view's length in bytes.
    pub fn len(&self) -> (n: usize)
        ensures
            n == self@.len(),
    {
        self.bytes.len()
    }

    /// Whether the view holds no bytes.
    pub fn is_empty(&self) -> (b: bool)
        ensures
            b == (self@.len() == 0),
    {
        self.bytes.len() == 0
    }

    /// Read access to the full mapped extent.
    pub fn as_bytes(&self) -> (r: &[u8])
        ensures
            r@ == self@,
    {
        self.bytes.as_slice()
    }

    /// Copies `data` into the view at `offset`, leaving every byte outside
    /// the copied range unchanged.
    pub fn write_at(&mut self, offset: usize, data: &[u8])
        requires
            offset + data@.len() <= old(self)@.len(),
        ensures
            final(self)@ == spliced(old(self)@, offset as nat, data@),
            final(self)@.len() == old(self)@.len(),
    {
        let total: usize = self.bytes.len();
        let mut i: usize = 0;
        while i < data.len()
            invariant
                i <= data@.len(),
                offset + data@.len() <= total,
                offset + data@.len() <= old(self)@.len(),
                self.bytes@.len() == old(self)@.len(),
                forall|j: int| 0 <= j < offset ==> self.bytes@[j] == old(self)@[j],
                forall|j: int| 0 <= j < i ==> self.bytes@[offset + j] == data@[j],
                forall|j: int|
                    offset + i <= j < old(self)@.len() ==> self.bytes@[j] == old(self)@[j],
            decreases data@.len() - i,
        {
            let b = data[i];
            self.bytes[offset + i] = b;
            i = i + 1;
        }
        proof {
            assert(self.bytes@ =~= spliced(old(self)@, offset as nat, data@));
        }
    }

    /// Changes the view's length to `new_len`: the file's length is changed
    /// and the mapping re-acquired over it, so shrinking discards trailing
    /// bytes and growing fills the new space with zeros.
    pub fn resize(&mut self, new_len: usize)
        ensures
            final(self)@ == resized_bytes(old(self)@, new_len as nat),
            final(self)@.len() == new_len,
    {
        self.bytes.resize(new_len, 0u8);
        proof {
            assert forall|j: int|
                old(self)@.len() <= j < new_len implies self.bytes@[j] == 0u8 by {
                assert(cloned(0u8, self.bytes@[j]));
            }
            assert(self.bytes@ =~= resized_bytes(old(self)@, new_len as nat));
        }
    }
}

} // verus!

//! Scoped borrows: a borrowed element of a block, kept as ciphertext of its
//! index, with no counting. The key, IV and ciphertext are wiped when the
//! borrow is released.
use vstd::prelude::*;
use zeroize::Zeroize;
use crate::cipher::{
    address_cipher_text, decrypt, encrypt, generate_key_and_iv, key_material, AesIv, AesKey,
};

verus! {

/// Sixteen zero bytes.
pub open spec fn zero_block() -> Seq<u8> {
    Seq::new(16, |i: int| 0u8)
}

/// Relies on `zeroize::Zeroize` for `[u8; 16]`: every byte is overwritten
/// with zero.
#[verifier::external_body]
fn zeroize_block(b: &mut [u8; 16])
    ensures
        final(b)@ == zero_block(),
{
    b.zeroize();
}

/// Relies on `zeroize::Zeroize` for `Vec<u8>`: the bytes are overwritten with
/// zero and the vector is left empty.
#[verifier::external_body]
fn zeroize_bytes(b: &mut Vec<u8>)
    ensures
        final(b)@ == Seq::<u8>::empty(),
{
    b.zeroize();
}

/// The key, IV and ciphertext of one borrow.
struct Sealed {
    key: AesKey,
    iv: AesIv,
    ptr: Vec<u8>,
}

impl Sealed {
    spec fn seals(&self, index: usize) -> bool {
        self.ptr@ == address_cipher_text(self.key@, self.iv@, index)
    }

    spec fn bytes(&self) -> Seq<u8> {
        self.key@ + self.iv@ + self.ptr@
    }

    spec fn is_wiped(&self) -> bool {
        &&& self.key@ == zero_block()
        &&& self.iv@ == zero_block()
        &&& self.ptr@.len() == 0
    }

    fn seal(index: usize) -> (r: Self)
        ensures
            r.seals(index),
    {
        let (key, iv) = generate_key_and_iv();
        let ptr = encrypt(index, &key, &iv);
        Sealed { key, iv, ptr }
    }

    fn open(&self, Ghost(index): Ghost<usize>) -> (r: usize)
        requires
            self.seals(index),
        ensures
            r == index,
    {
        let r = decrypt(&self.ptr, &self.key, &self.iv);
        assert(self.ptr@ == address_cipher_text(self.key@, self.iv@, index));
        r.unwrap()
    }

    fn wipe(&mut self)
        ensures
            final(self).is_wiped(),
            final(self).bytes() == Seq::new(32, |i: int| 0u8),
    {
        zeroize_block(&mut self.key);
        zeroize_block(&mut self.iv);
        zeroize_bytes(&mut self.ptr);
        assert(self.bytes() =~= Seq::new(32, |i: int| 0u8));
    }
}

/// A shared borrow of one element of a block.
pub struct EncryptedRef<'a, T> {
    sealed: Sealed,
    block: &'a Vec<T>,
    index: Ghost<usize>,
}

impl<'a, T> EncryptedRef<'a, T> {
    /// The element borrowed.
    pub closed spec fn target(&self) -> T {
        self.block@[self.index@ as int]
    }

    /// The borrow can still be read: its ciphertext has not been wiped.
    pub closed spec fn wf(&self) -> bool {
        &&& self.sealed.seals(self.index@)
        &&& self.index@ < self.block@.len()
    }

    /// Its key, IV and ciphertext are all zero or empty.
    pub closed spec fn is_wiped(&self) -> bool {
        self.sealed.is_wiped()
    }

    /// Borrows element `index` of `block`.
    pub fn new(block: &'a Vec<T>, index: usize) -> (r: Self)
        requires
            index < block@.len(),
        ensures
            r.wf(),
            r.target() == block@[index as int],
    {
        EncryptedRef { sealed: Sealed::seal(index), block, index: Ghost(index) }
    }

    /// The element, reached through the decrypted index.
    pub fn get(&self) -> (r: &'a T)
        requires
            self.wf(),
        ensures
            *r == self.target(),
    {
        let i = self.sealed.open(self.index);
        &self.block[i]
    }

    /// A second borrow of the same element, under its own key and IV.
    pub fn clone(&self) -> (r: Self)
        requires
            self.wf(),
        ensures
            r.wf(),
            r.target() == self.target(),
    {
        let i = self.sealed.open(self.index);
        EncryptedRef { sealed: Sealed::seal(i), block: self.block, index: self.index }
    }

    /// The bytes the borrow is made of: key, IV and ciphertext.
    pub closed spec fn stored_bytes(&self) -> Seq<u8> {
        self.sealed.bytes()
    }

    /// The bytes the borrow is made of: key, IV and ciphertext.
    pub fn representation(&self) -> (r: Vec<u8>)
        ensures
            r@ == self.stored_bytes(),
    {
        key_material(&self.sealed.key, &self.sealed.iv, &self.sealed.ptr)
    }

    /// Overwrites the key, IV and ciphertext with zeros; the ciphertext is
    /// left empty.
    pub fn zeroize(&mut self)
        ensures
            final(self).is_wiped(),
            final(self).stored_bytes() == Seq::new(32, |i: int| 0u8),
    {
        self.sealed.wipe();
    }

    /// Ends the borrow, wiping its secret material first.
    pub fn release(self) {
        let mut this = self;
        this.zeroize();
    }
}

/// Borrows element `index` of `block`.
pub fn eref<'a, T>(block: &'a Vec<T>, index: usize) -> (r: EncryptedRef<'a, T>)
    requires
        index < block@.len(),
    ensures
        r.wf(),
        r.target() == block@[index as int],
{
    EncryptedRef::new(block, index)
}

/// A mutable borrow of one element of a block.
pub struct EncryptedMutRef<'a, T> {
    sealed: Sealed,
    block: &'a mut Vec<T>,
    index: Ghost<usize>,
}

impl<'a, T> EncryptedMutRef<'a, T> {
    /// The index of the element borrowed.
    pub closed spec fn index(&self) -> usize {
        self.index@
    }

    /// The block, as it now stands.
    pub closed spec fn block(&self) -> Seq<T> {
        (*self.block)@
    }

    /// The borrow can still be used: its ciphertext has not been wiped.
    pub closed spec fn wf(&self) -> bool {
        &&& self.sealed.seals(self.index@)
        &&& self.index@ < (*self.block)@.len()
    }

    /// Its key, IV and ciphertext are all zero or empty.
    pub closed spec fn is_wiped(&self) -> bool {
        self.sealed.is_wiped()
    }

    /// The element, reached through the decrypted index.
    pub fn get(&self) -> (r: &T)
        requires
            self.wf(),
        ensures
            *r == self.block()[self.index() as int],
    {
        let i = self.sealed.open(self.index);
        &self.block[i]
    }

    /// Puts `value` in place of the element and gives back the old one.
    pub fn replace(&mut self, value: T) -> (r: T)
        requires
            old(self).wf(),
        ensures
            final(self).wf(),
            final(self).index() == old(self).index(),
            r == old(self).block()[old(self).index() as int],
            final(self).block() == old(self).block().update(old(self).index() as int, value),
    {
        let i = self.sealed.open(self.index);
        let mut held = value;
        self.block.set_and_swap(i, &mut held);
        held
    }

    /// The bytes the borrow is made of: key, IV and ciphertext.
    pub closed spec fn stored_bytes(&self) -> Seq<u8> {
        self.sealed.bytes()
    }

    /// The bytes the borrow is made of: key, IV and ciphertext.
    pub fn representation(&self) -> (r: Vec<u8>)
        ensures
            r@ == self.stored_bytes(),
    {
        key_material(&self.sealed.key, &self.sealed.iv, &self.sealed.ptr)
    }

    /// Overwrites the key, IV and ciphertext with zeros; the ciphertext is
    /// left empty.
    pub fn zeroize(&mut self)
        ensures
            final(self).is_wiped(),
            final(self).stored_bytes() == Seq::new(32, |i: int| 0u8),
    {
        self.sealed.wipe();
    }

    /// Ends the borrow, wiping its secret material first.
    pub fn release(self) {
        let mut this = self;
        this.zeroize();
    }
}

/// Borrows element `index` of `block` mutably.
pub fn emref<'a, T>(block: &'a mut Vec<T>, index: usize) -> (r: EncryptedMutRef<'a, T>)
    requires
        index < old(block)@.len(),
    ensures
        r.wf(),
        r.index() == index,
        r.block() == old(block)@,
{
    EncryptedMutRef { sealed: Sealed::seal(index), block, index: Ghost(index) }
}

} // verus!

//! The weak handle: an observer of a cell's lifecycle, kept as ciphertext.
use vstd::prelude::*;
use core::marker::PhantomData;
use crate::arc::EncryptedArc;
use crate::cell::CellStore;
use crate::cipher::{
    address_cipher_text, decrypt, encrypt, generate_key_and_iv, key_material, AesIv, AesKey,
};

verus! {

/// Whether `address` is the sentinel of a handle with no cell behind it.
pub fn is_dangling(address: usize) -> (r: bool)
    ensures
        r == (address == usize::MAX),
{
    address == usize::MAX
}

/// A weak handle on a cell of a [`CellStore`], or a dangling one with no cell.
/// Like the strong handle it holds only the encryption of its slot.
pub struct EncryptedWeak<T> {
    key: AesKey,
    iv: AesIv,
    encrypted_ptr: Vec<u8>,
    slot: Ghost<usize>,
    _phantom: PhantomData<T>,
}

impl<T> EncryptedWeak<T> {
    /// The slot of the cell this handle observes; `usize::MAX` if dangling.
    pub closed spec fn slot(&self) -> usize {
        self.slot@
    }

    /// The ciphertext is that of the slot under the handle's own key and IV.
    pub closed spec fn wf(&self) -> bool {
        self.encrypted_ptr@ == address_cipher_text(self.key@, self.iv@, self.slot@)
    }

    /// The handle has no cell behind it.
    pub open spec fn dangles(&self) -> bool {
        self.slot() == usize::MAX
    }

    /// What a caller holding this handle knows of `store`: a dangling handle
    /// asks nothing; any other has its cell there, with its own weak share
    /// counted.
    pub open spec fn observes(&self, store: &CellStore<T>) -> bool {
        &&& store.wf()
        &&& self.wf()
        &&& !self.dangles() ==> self.slot() < store@.len() && store@[self.slot() as int].observed()
    }

    /// The bytes the handle is made of: key, IV and ciphertext.
    pub closed spec fn stored_bytes(&self) -> Seq<u8> {
        self.key@ + self.iv@ + self.encrypted_ptr@
    }

    /// The slot, decrypted for the length of one access.
    fn decrypt(&self) -> (r: usize)
        requires
            self.wf(),
        ensures
            r == self.slot(),
    {
        let r = decrypt(&self.encrypted_ptr, &self.key, &self.iv);
        assert(self.encrypted_ptr@ == address_cipher_text(self.key@, self.iv@, self.slot@));
        r.unwrap()
    }

    /// A handle on the cell in `slot`, under a key and IV drawn for it alone.
    pub(crate) fn from_inner(slot: usize) -> (r: Self)
        ensures
            r.wf(),
            r.slot() == slot,
    {
        let (key, iv) = generate_key_and_iv();
        let encrypted_ptr = encrypt(slot, &key, &iv);
        EncryptedWeak { key, iv, encrypted_ptr, slot: Ghost(slot), _phantom: PhantomData }
    }

    /// A dangling handle: it observes no cell and never upgrades.
    pub fn new() -> (r: Self)
        ensures
            r.wf(),
            r.dangles(),
    {
        Self::from_inner(usize::MAX)
    }

    /// A second weak handle on the same cell, under a new key and IV. A
    /// dangling handle gives a dangling one and touches no count.
    pub fn clone(&self, store: &mut CellStore<T>) -> (r: Self)
        requires
            self.observes(old(store)),
            !self.dangles() ==> old(store)@[self.slot() as int].weak <= isize::MAX,
        ensures
            r.observes(final(store)),
            self.observes(final(store)),
            r.slot() == self.slot(),
            self.dangles() ==> final(store)@ == old(store)@,
            !self.dangles() ==> final(store)@ == old(store)@.update(
                self.slot() as int,
                old(store)@[self.slot() as int].with_weak_added(),
            ),
    {
        let slot = self.decrypt();
        if !is_dangling(slot) {
            store.add_weak(slot);
        }
        Self::from_inner(slot)
    }

    /// A strong handle on the same cell, if a strong share still exists;
    /// `None` once the payload is gone, or for a dangling handle. The strong
    /// count is never taken from zero to one.
    pub fn upgrade(&self, store: &mut CellStore<T>) -> (r: Option<EncryptedArc<T>>)
        requires
            self.observes(old(store)),
            !self.dangles() ==> old(store)@[self.slot() as int].strong <= isize::MAX,
        ensures
            final(store).wf(),
            self.observes(final(store)),
            r.is_some() == (!self.dangles() && old(store)@[self.slot() as int].upgrades()),
            r.is_some() ==> r.unwrap().holds(final(store)) && r.unwrap().slot() == self.slot()
                && final(store)@ == old(store)@.update(
                self.slot() as int,
                old(store)@[self.slot() as int].with_strong_added(),
            ),
            r.is_none() ==> final(store)@ == old(store)@,
    {
        let slot = self.decrypt();
        if is_dangling(slot) {
            return None;
        }
        let n = store.strong_of(slot);
        if n == 0 {
            return None;
        }
        store.add_strong(slot);
        Some(EncryptedArc::from_inner(slot))
    }

    /// Gives up this handle's share. The last weak share frees the cell's
    /// storage. A dangling handle touches no count.
    pub fn release(self, store: &mut CellStore<T>)
        requires
            self.observes(old(store)),
        ensures
            final(store).wf(),
            self.dangles() ==> final(store)@ == old(store)@,
            !self.dangles() ==> final(store)@ == old(store)@.update(
                self.slot() as int,
                old(store)@[self.slot() as int].with_weak_released(),
            ),
    {
        let slot = self.decrypt();
        if !is_dangling(slot) {
            store.release_weak(slot);
        }
    }

    /// The bytes the handle is made of: key, IV and ciphertext.
    pub fn representation(&self) -> (r: Vec<u8>)
        ensures
            r@ == self.stored_bytes(),
    {
        key_material(&self.key, &self.iv, &self.encrypted_ptr)
    }
}

} // verus!

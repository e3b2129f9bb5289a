//! The strong handle: one share of a cell, kept as ciphertext.
use vstd::prelude::*;
use core::marker::PhantomData;
use crate::cell::{CellModel, CellStore};
use crate::cipher::{
    address_cipher_text, decrypt, encrypt, generate_key_and_iv, key_material, AesIv, AesKey,
};
use crate::weak::EncryptedWeak;

verus! {

/// A strong handle on a cell of a [`CellStore`]. It holds a key, an IV and
/// the encryption of its cell's slot under them, never the slot itself.
pub struct EncryptedArc<T> {
    key: AesKey,
    iv: AesIv,
    encrypted_ptr: Vec<u8>,
    slot: Ghost<usize>,
    _phantom: PhantomData<T>,
}

impl<T> EncryptedArc<T> {
    /// The slot of the cell that this handle owns a share of.
    pub closed spec fn slot(&self) -> usize {
        self.slot@
    }

    /// The ciphertext is that of the slot under the handle's own key and IV.
    pub closed spec fn wf(&self) -> bool {
        &&& self.encrypted_ptr@ == address_cipher_text(self.key@, self.iv@, self.slot@)
        &&& self.slot@ < usize::MAX
    }

    /// What a caller holding this handle knows of `store`: the cell is there
    /// and has a strong share.
    pub open spec fn holds(&self, store: &CellStore<T>) -> bool {
        &&& store.wf()
        &&& self.wf()
        &&& self.slot() < store@.len()
        &&& store@[self.slot() as int].strong > 0
    }

    /// The slot, decrypted for the length of one access.
    fn decrypt(&self) -> (r: usize)
        requires
            self.wf(),
        ensures
            r == self.slot(),
    {
        let r = decrypt(&self.encrypted_ptr, &self.key, &self.iv);
        assert(self.encrypted_ptr@ == address_cipher_text(self.key@, self.iv@, self.slot@));
        r.unwrap()
    }

    /// A handle on the cell in `slot`, under a key and IV drawn for it alone.
    pub(crate) fn from_inner(slot: usize) -> (r: Self)
        requires
            slot < usize::MAX,
        ensures
            r.wf(),
            r.slot() == slot,
    {
        let (key, iv) = generate_key_and_iv();
        let encrypted_ptr = encrypt(slot, &key, &iv);
        EncryptedArc { key, iv, encrypted_ptr, slot: Ghost(slot), _phantom: PhantomData }
    }

    /// Puts `data` in a new cell of `store` with one strong share and gives
    /// back the handle on it.
    pub fn new(store: &mut CellStore<T>, data: T) -> (r: Self)
        requires
            old(store).wf(),
            old(store)@.len() < usize::MAX,
        ensures
            r.holds(final(store)),
            r.slot() == old(store)@.len(),
            final(store)@ == old(store)@.push(CellModel::fresh(data)),
    {
        let slot = store.allocate(data);
        Self::from_inner(slot)
    }

    /// The strong count of this handle's cell.
    pub fn strong_count(&self, store: &CellStore<T>) -> (r: usize)
        requires
            self.holds(store),
        ensures
            r == store@[self.slot() as int].strong,
    {
        store.strong_of(self.decrypt())
    }

    /// The weak count of this handle's cell, the strong side's share included.
    pub fn weak_count(&self, store: &CellStore<T>) -> (r: usize)
        requires
            self.holds(store),
        ensures
            r == store@[self.slot() as int].weak,
    {
        store.weak_of(self.decrypt())
    }

    /// The payload.
    pub fn get<'a>(&self, store: &'a CellStore<T>) -> (r: &'a T)
        requires
            self.holds(store),
        ensures
            store@[self.slot() as int].data == Some(*r),
    {
        store.data_of(self.decrypt())
    }

    /// Puts `value` in place of the payload and gives back the old payload.
    /// Every handle on the cell sees the new payload.
    pub fn replace(&self, store: &mut CellStore<T>, value: T) -> (r: T)
        requires
            self.holds(old(store)),
        ensures
            final(store).wf(),
            old(store)@[self.slot() as int].data == Some(r),
            final(store)@ == old(store)@.update(
                self.slot() as int,
                old(store)@[self.slot() as int].with_data(value),
            ),
    {
        store.replace_data(self.decrypt(), value)
    }

    /// A second strong handle on the same cell, under a new key and IV.
    pub fn clone(&self, store: &mut CellStore<T>) -> (r: Self)
        requires
            self.holds(old(store)),
            old(store)@[self.slot() as int].strong <= isize::MAX,
        ensures
            r.holds(final(store)),
            self.holds(final(store)),
            r.slot() == self.slot(),
            final(store)@ == old(store)@.update(
                self.slot() as int,
                old(store)@[self.slot() as int].with_strong_added(),
            ),
    {
        let slot = self.decrypt();
        store.add_strong(slot);
        Self::from_inner(slot)
    }

    /// A weak handle on the same cell, under a new key and IV.
    pub fn downgrade(&self, store: &mut CellStore<T>) -> (r: EncryptedWeak<T>)
        requires
            self.holds(old(store)),
            old(store)@[self.slot() as int].weak <= isize::MAX,
        ensures
            r.observes(final(store)),
            self.holds(final(store)),
            r.slot() == self.slot(),
            final(store)@ == old(store)@.update(
                self.slot() as int,
                old(store)@[self.slot() as int].with_weak_added(),
            ),
    {
        let slot = self.decrypt();
        proof {
            store.lemma_cell_wf(slot as int);
        }
        store.add_weak(slot);
        EncryptedWeak::from_inner(slot)
    }

    /// Gives up this handle's share. The last strong share destroys the
    /// payload and releases the strong side's weak share.
    pub fn release(self, store: &mut CellStore<T>)
        requires
            self.holds(old(store)),
        ensures
            final(store).wf(),
            final(store)@ == old(store)@.update(
                self.slot() as int,
                old(store)@[self.slot() as int].with_strong_released(),
            ),
    {
        store.release_strong(self.decrypt());
    }

    /// The bytes the handle is made of: key, IV and ciphertext.
    pub closed spec fn stored_bytes(&self) -> Seq<u8> {
        self.key@ + self.iv@ + self.encrypted_ptr@
    }

    /// The bytes the handle is made of: key, IV and ciphertext.
    pub fn representation(&self) -> (r: Vec<u8>)
        ensures
            r@ == self.stored_bytes(),
    {
        key_material(&self.key, &self.iv, &self.encrypted_ptr)
    }
}

} // verus!

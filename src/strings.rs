use crate::cell::{CellModel, ConcurrentCell};
use vstd::prelude::*;

verus! {

/// A replaceable string without a version: each update installs a new string
/// and retires the old one.
pub struct SharedString {
    current: String,
}

impl View for SharedString {
    type V = Seq<char>;

    closed spec fn view(&self) -> Seq<char> {
        self.current@
    }
}

impl SharedString {
    pub fn new(s: String) -> (r: Self)
        ensures
            r@ == s@,
    {
        SharedString { current: s }
    }

    /// Installs `new_val` as the live string.
    pub fn update(&mut self, new_val: String)
        ensures
            final(self)@ == new_val@,
    {
        self.current = new_val;
    }

    /// A copy of the live string.
    pub fn get(&self) -> (r: String)
        ensures
            r@ == self@,
    {
        self.current.clone()
    }
}

/// A replaceable string with a version that counts the updates.
pub struct AtomicString {
    cell: ConcurrentCell<String>,
}

impl View for AtomicString {
    type V = CellModel<String>;

    closed spec fn view(&self) -> CellModel<String> {
        self.cell@
    }
}

impl AtomicString {
    pub fn new(s: String) -> (r: Self)
        ensures
            r@ == (CellModel { value: s, version: 0 }),
    {
        AtomicString { cell: ConcurrentCell::new(s) }
    }

    /// Installs `new_val` and advances the version by one.
    pub fn update(&mut self, new_val: String)
        requires
            old(self)@.version < u64::MAX,
        ensures
            final(self)@ == old(self)@.replaced(new_val),
    {
        self.cell.replace(new_val);
    }

    /// A copy of the live string.
    pub fn get(&self) -> (r: String)
        ensures
            r == self@.value,
    {
        self.cell.read()
    }

    /// The number of updates so far.
    pub fn version(&self) -> (r: u64)
        ensures
            r == self@.version,
    {
        self.cell.version()
    }
}

} // verus!

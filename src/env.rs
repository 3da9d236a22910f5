//! The state that every syscall of one running application shares: its
//! binary resource table and the flag of the suspend/resume protocol.
use vstd::prelude::*;
use crate::binary_data::{BinaryData, BinaryDataView};

verus! {

/// The mathematical model of [`EnvData`].
pub struct EnvDataView {
    pub table: BinaryDataView,
    pub notified: bool,
}

/// The shared state of one running application.
pub struct EnvData {
    binary_data: BinaryData,
    notified: bool,
}

impl View for EnvData {
    type V = EnvDataView;

    closed spec fn view(&self) -> EnvDataView {
        EnvDataView { table: self.binary_data@, notified: self.notified }
    }
}

impl EnvData {
    /// The invariant, which every value built and changed by these methods keeps.
    pub open spec fn wf(&self) -> bool {
        self@.table.wf()
    }

    /// Fresh state: an empty table, not notified.
    pub fn new() -> (r: Self)
        ensures
            r.wf(),
            r@.table.slots.len() == 0,
            r@.table.free.len() == 0,
            !r@.notified,
    {
        EnvData { binary_data: BinaryData::new(), notified: false }
    }

    /// Stores a copy of `data` in the table and returns its handle.
    pub fn push_binary_data(&mut self, data: &[u8]) -> (r: usize)
        requires
            old(self).wf(),
        ensures
            final(self).wf(),
            (final(self)@.table, r as int) == old(self)@.table.push(data@),
            final(self)@.notified == old(self)@.notified,
    {
        self.binary_data.push(data)
    }

    /// Removes a handle from the table, handing back what it held.
    pub fn remove_binary_data(&mut self, index: usize) -> (r: Option<Vec<u8>>)
        requires
            old(self).wf(),
        ensures
            final(self).wf(),
            final(self)@.table == old(self)@.table.remove(index).0,
            crate::binary_data::slot_view(r) == old(self)@.table.remove(index).1,
            final(self)@.notified == old(self)@.notified,
    {
        self.binary_data.remove(index)
    }

    /// The bytes that a live handle holds.
    pub fn get_binary_data(&self, index: usize) -> (r: Option<&[u8]>)
        ensures
            match r {
                Some(s) => self@.table.get(index as int) == Some(s@),
                None => self@.table.get(index as int) is None,
            },
    {
        self.binary_data.get(index)
    }

    /// Puts `data` in the place of what a live handle holds.
    pub fn replace_binary_data(&mut self, index: usize, data: Vec<u8>) -> (r: Result<Vec<u8>, Vec<u8>>)
        requires
            old(self).wf(),
        ensures
            final(self).wf(),
            final(self)@.notified == old(self)@.notified,
            match r {
                Ok(prev) => {
                    &&& old(self)@.table.get(index as int) == Some(prev@)
                    &&& final(self)@.table == BinaryDataView {
                        slots: old(self)@.table.slots.update(index as int, Some(data@)),
                        free: old(self)@.table.free,
                    }
                },
                Err(back) => {
                    &&& old(self)@.table.get(index as int) is None
                    &&& back == data
                    &&& final(self)@.table == old(self)@.table
                },
            },
    {
        self.binary_data.replace(index, data)
    }

    /// Whether a wake happened since the guest last suspended.
    pub fn notified(&self) -> (r: bool)
        ensures
            r == self@.notified,
    {
        self.notified
    }

    pub fn set_notified(&mut self, notified: bool)
        requires
            old(self).wf(),
        ensures
            final(self).wf(),
            final(self)@ == (EnvDataView { notified, ..old(self)@ }),
    {
        self.notified = notified;
    }
}

} // verus!

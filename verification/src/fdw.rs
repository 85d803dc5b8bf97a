//! The connector contract: the trait every data-source implementation
//! satisfies, together with the scan and modify lifecycle state machines
//! that govern which call sequences are legal. The machines are stated as
//! contracts over two abstract lifecycle states each implementation exposes,
//! so an out-of-order call is rejected at verification time rather than
//! discovered at run time.

use vstd::prelude::*;
use std::collections::HashMap;
use crate::value::Cell;
use crate::row::Row;
use crate::query::{Qual, Sort, Limit};

verus! {

/// Catalog identifier handed to [`ForeignDataWrapper::validator`] when a
/// wrapper-level definition is validated.
pub const FOREIGN_DATA_WRAPPER_RELATION_ID: u32 = 2328;

/// Catalog identifier handed to [`ForeignDataWrapper::validator`] when a
/// server definition is validated.
pub const FOREIGN_SERVER_RELATION_ID: u32 = 1417;

/// Catalog identifier handed to [`ForeignDataWrapper::validator`] when a
/// foreign-table definition is validated.
pub const FOREIGN_TABLE_RELATION_ID: u32 = 3118;

/// Catalog identifier handed to [`ForeignDataWrapper::validator`] when a
/// user-mapping definition is validated.
pub const USER_MAPPING_RELATION_ID: u32 = 1418;

/// Where a connector stands in the scan lifecycle.
#[derive(Debug, Clone, Copy)]
pub enum ScanState {
    /// No scan has begun.
    Uninitialized,
    /// A scan is active and may still yield rows.
    Scanning,
    /// The scan has reported end-of-data; without a rewind every further
    /// pull reports end-of-data again.
    Exhausted,
    /// The scan has ended and its resources are released.
    Closed,
}

/// Where a connector stands in the modify lifecycle.
#[derive(Debug, Clone, Copy)]
pub enum ModifyState {
    /// No modification session has begun.
    Uninitialized,
    /// A modification session is active.
    Modifying,
    /// The modification session has ended.
    Closed,
}

/// The foreign data wrapper trait.
///
/// A connector exposes two abstract lifecycle states; every lifecycle
/// operation states which states it may be entered in and which it leaves
/// behind, so the legal call orders — begin, pull until end-of-data, end;
/// begin, write, end — are enforced on every verified caller. Scan and
/// modify sessions are mutually exclusive in time on one instance.
pub trait ForeignDataWrapper: Sized {
    /// Where this connector stands in the scan lifecycle.
    spec fn scan_state(&self) -> ScanState;

    /// Where this connector stands in the modify lifecycle.
    spec fn modify_state(&self) -> ModifyState;

    /// Create a connector instance from the flat option map of the server
    /// definition. Pure setup: no connection is established here; that is
    /// deferred to the begin of a scan or modify session.
    fn new(options: &HashMap<String, String>) -> (r: Self)
        ensures
            r.scan_state() is Uninitialized,
            r.modify_state() is Uninitialized;

    /// Relation size estimates for a foreign table scan: the expected row
    /// count and row width in bytes. Used only for planning quality, never
    /// for correctness; the default returns a cheap constant and leaves the
    /// connector untouched.
    fn get_rel_size(
        &mut self,
        quals: &[Qual],
        columns: &[String],
        sorts: &[Sort],
        limit: &Option<Limit>,
        options: &HashMap<String, String>,
    ) -> (r: (i64, i32))
        ensures
            final(self).scan_state() == old(self).scan_state(),
            final(self).modify_state() == old(self).modify_state(),
    {
        (0, 0)
    }

    /// Begin a scan session, pushing down the `WHERE` restrictions, the
    /// target columns, the `ORDER BY` terms and the `LIMIT` clause; each is
    /// advisory and the connector may honor as much of it as the external
    /// source can. Legal only while no scan is active and no modification
    /// session is open.
    fn begin_scan(
        &mut self,
        quals: &[Qual],
        columns: &[String],
        sorts: &[Sort],
        limit: &Option<Limit>,
        options: &HashMap<String, String>,
    )
        requires
            old(self).scan_state() is Uninitialized || old(self).scan_state() is Closed,
            !(old(self).modify_state() is Modifying),
        ensures
            final(self).scan_state() is Scanning,
            final(self).modify_state() == old(self).modify_state();

    /// Pull the next row of the active scan; end-of-data is reported as an
    /// absent row. The end-of-data state is terminal and idempotent: once it
    /// is reported, every further pull without an intervening rewind reports
    /// it again.
    fn iter_scan(&mut self) -> (r: Option<Row>)
        requires
            old(self).scan_state() is Scanning || old(self).scan_state() is Exhausted,
        ensures
            final(self).modify_state() == old(self).modify_state(),
            old(self).scan_state() is Exhausted ==> r is None,
            r is None ==> final(self).scan_state() is Exhausted,
            r matches Some(row) ==> final(self).scan_state() is Scanning && old(
                self,
            ).scan_state() is Scanning && row.well_formed();

    /// Restart the active scan from the beginning. Rewinding is a capability
    /// a connector may choose not to offer: the default does nothing, and
    /// the contract promises only that afterward the scan either stands
    /// rewound or stands where it stood.
    fn re_scan(&mut self)
        requires
            old(self).scan_state() is Scanning || old(self).scan_state() is Exhausted,
        ensures
            final(self).modify_state() == old(self).modify_state(),
            final(self).scan_state() is Scanning || final(self).scan_state() == old(
                self,
            ).scan_state(),
    {
    }

    /// End the scan session and release scan-scoped resources. Must be
    /// called exactly once per begun scan, whether or not the scan was
    /// driven to completion.
    fn end_scan(&mut self)
        requires
            old(self).scan_state() is Scanning || old(self).scan_state() is Exhausted,
        ensures
            final(self).scan_state() is Closed,
            final(self).modify_state() == old(self).modify_state();

    /// Begin a modification session under the foreign table's options (which
    /// name the row-identifier column). Legal only while no scan is active
    /// and no modification session is open.
    fn begin_modify(&mut self, options: &HashMap<String, String>)
        requires
            old(self).modify_state() is Uninitialized || old(self).modify_state() is Closed,
            !(old(self).scan_state() is Scanning),
            !(old(self).scan_state() is Exhausted),
        ensures
            final(self).modify_state() is Modifying,
            final(self).scan_state() == old(self).scan_state();

    /// Insert one row into the foreign table. The default connector does not
    /// support writes and ignores the call.
    fn insert(&mut self, row: &Row)
        requires
            old(self).modify_state() is Modifying,
            row.well_formed(),
        ensures
            final(self).modify_state() is Modifying,
            final(self).scan_state() == old(self).scan_state(),
    {
    }

    /// Update the row identified by the row-identifier cell with the given
    /// new row. The default connector does not support writes and ignores
    /// the call.
    fn update(&mut self, rowid: &Cell, new_row: &Row)
        requires
            old(self).modify_state() is Modifying,
            new_row.well_formed(),
        ensures
            final(self).modify_state() is Modifying,
            final(self).scan_state() == old(self).scan_state(),
    {
    }

    /// Delete the row identified by the row-identifier cell. The default
    /// connector does not support writes and ignores the call.
    fn delete(&mut self, rowid: &Cell)
        requires
            old(self).modify_state() is Modifying,
        ensures
            final(self).modify_state() is Modifying,
            final(self).scan_state() == old(self).scan_state(),
    {
    }

    /// End the modification session and release its resources.
    fn end_modify(&mut self)
        requires
            old(self).modify_state() is Modifying,
        ensures
            final(self).modify_state() is Closed,
            final(self).scan_state() == old(self).scan_state();

    /// Validate the options of a definition command, independent of any
    /// connector instance; the catalog identifier says which of the four
    /// catalog kinds the call concerns. The default accepts everything.
    fn validator(options: Vec<Option<String>>, catalog: Option<u32>) {
    }
}

} // verus!

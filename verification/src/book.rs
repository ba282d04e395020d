//! Per-instrument order-book reconstruction.
//!
//! A depth snapshot holds the reconstructed book of one instrument; an
//! incremental message patches it.  Prices and quantities are plain scaled
//! integers; a field that the wire message may omit is an `Option`.  Every
//! update operation is specified exactly by a spec-level transformer on the
//! entry sequence, and the module proves the book invariant: on each side the
//! price levels in storage order are exactly `1, 2, ..., k`.

use vstd::prelude::*;

verus! {

/// Entry kind: bid side.
pub const ENTRY_BID: u32 = 0;

/// Entry kind: ask (offer) side.
pub const ENTRY_ASK: u32 = 1;

/// Entry kind: trade report (carries last-trade and OHLC data).
pub const ENTRY_TRADE: u32 = 2;

/// Entry kind: daily traded-volume statistics.
pub const ENTRY_VOLUME: u32 = 9;

pub const ACTION_ADD: u32 = 0;

pub const ACTION_CHANGE: u32 = 1;

pub const ACTION_DELETE: u32 = 2;

pub const ACTION_DELETE_THRU: u32 = 3;

pub const ACTION_DELETE_FROM: u32 = 4;

pub const ACTION_OVERLAY: u32 = 5;

/// One row of a reconstructed depth snapshot.
#[derive(Clone, Copy)]
pub struct DepthEntry {
    pub entry_type: u32,
    pub price_level: Option<u32>,
    pub price: Option<i64>,
    pub size: Option<i64>,
    pub order_count: Option<u32>,
    pub entry_time: Option<i64>,
    pub trade_condition: Option<u64>,
    pub avg_traded_price: Option<i64>,
    pub pste: Option<u32>,
    pub quote_condition: Option<u32>,
}

/// The live per-instrument book state.
pub struct DepthSnapshot {
    pub msg_seq_num: Option<u32>,
    pub security_id: i64,
    pub last_update_time: i64,
    pub total_buy_qty: Option<i64>,
    pub total_sell_qty: Option<i64>,
    pub entries: Vec<DepthEntry>,
}

/// A decoded incremental depth message for one instrument.
#[derive(Clone, Copy)]
pub struct DepthIncrement {
    pub update_action: u32,
    pub entry_type: u32,
    pub security_id: i64,
    pub price: Option<i64>,
    pub size: Option<i64>,
    pub order_count: Option<u32>,
    pub price_level: Option<u32>,
    pub entry_time: Option<i64>,
    pub pste: Option<u32>,
    pub quote_condition: Option<u32>,
    pub total_buy_qty: Option<i64>,
    pub total_sell_qty: Option<i64>,
}

impl DepthEntry {
    /// The snapshot row that an incremental message inserts; fields the
    /// increment does not carry start out absent.
    pub fn from_md_incr_grp(inc: &DepthIncrement) -> (r: DepthEntry)
        ensures
            r == spec_entry_from_increment(*inc),
    {
        DepthEntry {
            entry_type: inc.entry_type,
            price_level: inc.price_level,
            price: inc.price,
            size: inc.size,
            order_count: inc.order_count,
            entry_time: inc.entry_time,
            trade_condition: None,
            avg_traded_price: None,
            pste: inc.pste,
            quote_condition: inc.quote_condition,
        }
    }
}

pub open spec fn spec_entry_from_increment(inc: DepthIncrement) -> DepthEntry {
    DepthEntry {
        entry_type: inc.entry_type,
        price_level: inc.price_level,
        price: inc.price,
        size: inc.size,
        order_count: inc.order_count,
        entry_time: inc.entry_time,
        trade_condition: None,
        avg_traded_price: None,
        pste: inc.pste,
        quote_condition: inc.quote_condition,
    }
}

// ---------------------------------------------------------------------------
// Option comparisons with `None` ordered below every `Some`, the order
// optional wire fields compare in.
// ---------------------------------------------------------------------------

pub open spec fn spec_opt_u32_ge(a: Option<u32>, b: Option<u32>) -> bool {
    match (a, b) {
        (None, None) => true,
        (None, Some(_)) => false,
        (Some(_), None) => true,
        (Some(x), Some(y)) => x >= y,
    }
}

pub open spec fn spec_opt_u32_lt(a: Option<u32>, b: Option<u32>) -> bool {
    !spec_opt_u32_ge(a, b)
}

pub open spec fn spec_opt_u32_gt(a: Option<u32>, b: Option<u32>) -> bool {
    match (a, b) {
        (None, None) => false,
        (None, Some(_)) => false,
        (Some(_), None) => true,
        (Some(x), Some(y)) => x > y,
    }
}

pub open spec fn spec_opt_i64_gt(a: Option<i64>, b: Option<i64>) -> bool {
    match (a, b) {
        (None, None) => false,
        (None, Some(_)) => false,
        (Some(_), None) => true,
        (Some(x), Some(y)) => x > y,
    }
}

fn opt_u32_ge(a: Option<u32>, b: Option<u32>) -> (r: bool)
    ensures
        r == spec_opt_u32_ge(a, b),
{
    match (a, b) {
        (None, None) => true,
        (None, Some(_)) => false,
        (Some(_), None) => true,
        (Some(x), Some(y)) => x >= y,
    }
}

fn opt_u32_gt(a: Option<u32>, b: Option<u32>) -> (r: bool)
    ensures
        r == spec_opt_u32_gt(a, b),
{
    match (a, b) {
        (None, None) => false,
        (None, Some(_)) => false,
        (Some(_), None) => true,
        (Some(x), Some(y)) => x > y,
    }
}

fn opt_i64_gt(a: Option<i64>, b: Option<i64>) -> (r: bool)
    ensures
        r == spec_opt_i64_gt(a, b),
{
    match (a, b) {
        (None, None) => false,
        (None, Some(_)) => false,
        (Some(_), None) => true,
        (Some(x), Some(y)) => x > y,
    }
}

// ---------------------------------------------------------------------------
// Spec-level transformers: each executable update proves it computes exactly
// one of these.
// ---------------------------------------------------------------------------

/// Bump one level up if the entry sits on `et`'s side strictly above `pos`
/// in the array; used after an insertion.
pub open spec fn spec_bump_level(e: DepthEntry) -> DepthEntry {
    if e.price_level is Some {
        DepthEntry { price_level: Some((e.price_level->0 + 1) as u32), ..e }
    } else {
        e
    }
}

pub open spec fn spec_dec_level(e: DepthEntry) -> DepthEntry {
    if e.price_level is Some {
        DepthEntry { price_level: Some((e.price_level->0 - 1) as u32), ..e }
    } else {
        e
    }
}

/// First index at or after `i` where the insertion scan of
/// `get_new_depth_idx` stops, or the length if it never stops.
pub open spec fn spec_scan_stop(s: Seq<DepthEntry>, new: DepthEntry, i: int) -> bool {
    let started_before = exists|j: int| 0 <= j < i && #[trigger] s[j].entry_type == new.entry_type;
    let started_here = started_before || s[i].entry_type == new.entry_type;
    (started_before && s[i].entry_type != new.entry_type) || (started_here && spec_opt_u32_ge(
        s[i].price_level,
        new.price_level,
    ))
}

pub open spec fn spec_new_depth_idx_from(s: Seq<DepthEntry>, new: DepthEntry, i: int) -> int
    decreases s.len() - i,
{
    if i < 0 || i >= s.len() {
        s.len() as int
    } else if spec_scan_stop(s, new, i) {
        i
    } else {
        spec_new_depth_idx_from(s, new, i + 1)
    }
}

/// Position where an incoming side entry is inserted.
pub open spec fn spec_new_depth_idx(s: Seq<DepthEntry>, new: DepthEntry) -> int {
    spec_new_depth_idx_from(s, new, 0)
}

/// First index whose entry type equals `et`, or -1.
pub open spec fn spec_find_type_from(s: Seq<DepthEntry>, et: u32, i: int) -> int
    decreases s.len() - i,
{
    if i < 0 || i >= s.len() {
        -1
    } else if s[i].entry_type == et {
        i
    } else {
        spec_find_type_from(s, et, i + 1)
    }
}

/// First index whose entry matches `(et, Some(lvl))`, or -1.
pub open spec fn spec_find_level_from(s: Seq<DepthEntry>, et: u32, lvl: u32, i: int) -> int
    decreases s.len() - i,
{
    if i < 0 || i >= s.len() {
        -1
    } else if s[i].entry_type == et && s[i].price_level == Some(lvl) {
        i
    } else {
        spec_find_level_from(s, et, lvl, i + 1)
    }
}

/// The row an Add inserts: a bid or ask that arrives without a rank takes
/// the top of its side (level one), so that a later Delete of that level
/// inverts the Add; any other row keeps the fields as sent.
pub open spec fn spec_effective_entry(inc: DepthIncrement) -> DepthEntry {
    let e = spec_entry_from_increment(inc);
    if inc.entry_type < 2 && inc.price_level is None {
        DepthEntry { price_level: Some(1u32), ..e }
    } else {
        e
    }
}

/// The Add transformer: position, optional displacement of a same-type
/// non-side entry, insertion, and the level shift of deeper same-side rows.
pub open spec fn spec_add_depth(s: Seq<DepthEntry>, inc: DepthIncrement) -> Seq<DepthEntry> {
    let new = spec_effective_entry(inc);
    let k = spec_find_type_from(s, inc.entry_type, 0);
    let s1 = if inc.entry_type < 2 && new.entry_type < 2 {
        s
    } else if k >= 0 {
        s.remove(k)
    } else {
        s
    };
    let pos = if inc.entry_type < 2 {
        spec_new_depth_idx(s, new)
    } else if k >= 0 {
        k
    } else {
        0
    };
    let s2 = s1.insert(pos, new);
    if new.price_level is Some {
        s2.map(
            |j: int, e: DepthEntry|
                if j > pos && e.entry_type == inc.entry_type && e.price_level is Some {
                    spec_bump_level(e)
                } else {
                    e
                },
        )
    } else {
        s2
    }
}

/// The Change transformer: sparse overwrite of the first matching row, or an
/// Add when no row matches.
pub open spec fn spec_change_fields(e: DepthEntry, inc: DepthIncrement) -> DepthEntry {
    DepthEntry {
        size: if inc.size is Some {
            inc.size
        } else {
            e.size
        },
        order_count: if inc.order_count is Some {
            inc.order_count
        } else {
            e.order_count
        },
        entry_time: if inc.entry_time is Some {
            inc.entry_time
        } else {
            e.entry_time
        },
        pste: if inc.pste is Some {
            inc.pste
        } else {
            e.pste
        },
        quote_condition: if inc.quote_condition is Some {
            inc.quote_condition
        } else {
            e.quote_condition
        },
        ..e
    }
}

pub open spec fn spec_change_depth(s: Seq<DepthEntry>, inc: DepthIncrement, lvl: u32) -> Seq<
    DepthEntry,
> {
    let k = spec_find_level_from(s, inc.entry_type, lvl, 0);
    if k >= 0 {
        s.update(k, spec_change_fields(s[k], inc))
    } else {
        spec_add_depth(s, inc)
    }
}

/// The Delete transformer: drop the matching row, pull deeper same-side rows
/// one level up.
pub open spec fn spec_del_depth(s: Seq<DepthEntry>, et: u32, lvl: u32) -> Seq<DepthEntry>
    decreases s.len(),
{
    if s.len() == 0 {
        Seq::empty()
    } else {
        let rest = spec_del_depth(s.drop_last(), et, lvl);
        let e = s.last();
        if e.entry_type == et && e.price_level == Some(lvl) {
            rest
        } else if e.entry_type == et && e.price_level is Some && e.price_level->0 > lvl {
            rest.push(spec_dec_level(e))
        } else {
            rest.push(e)
        }
    }
}

/// Retain pass of DeleteThru: keep rows of other types, and same-type rows
/// strictly deeper than the cutoff.
pub open spec fn spec_del_thru_retain(s: Seq<DepthEntry>, et: u32, lvl: u32) -> Seq<DepthEntry>
    decreases s.len(),
{
    if s.len() == 0 {
        Seq::empty()
    } else {
        let rest = spec_del_thru_retain(s.drop_last(), et, lvl);
        let e = s.last();
        if e.entry_type != et || spec_opt_u32_gt(e.price_level, Some(lvl)) {
            rest.push(e)
        } else {
            rest
        }
    }
}

/// Number of rows in `s` that the renumber pass of DeleteThru touches.
pub open spec fn spec_renumber_count(s: Seq<DepthEntry>, et: u32, lvl: u32) -> int
    decreases s.len(),
{
    if s.len() == 0 {
        0
    } else {
        spec_renumber_count(s.drop_last(), et, lvl) + if s.last().entry_type == et
            && s.last().price_level is Some && s.last().price_level->0 > lvl {
            1int
        } else {
            0int
        }
    }
}

/// Renumber pass of DeleteThru: the i-th touched row gets level i+1.
pub open spec fn spec_del_thru_renumber(s: Seq<DepthEntry>, et: u32, lvl: u32) -> Seq<DepthEntry> {
    s.map(
        |j: int, e: DepthEntry|
            if e.entry_type == et && e.price_level is Some && e.price_level->0 > lvl {
                DepthEntry {
                    price_level: Some((spec_renumber_count(s.take(j), et, lvl) + 1) as u32),
                    ..e
                }
            } else {
                e
            },
    )
}

pub open spec fn spec_del_thru_depth(s: Seq<DepthEntry>, et: u32, lvl: u32) -> Seq<DepthEntry> {
    spec_del_thru_renumber(spec_del_thru_retain(s, et, lvl), et, lvl)
}

/// The DeleteFrom transformer: keep rows of other types, and same-type rows
/// strictly above the cutoff; no renumbering.
pub open spec fn spec_del_from_depth(s: Seq<DepthEntry>, et: u32, lvl: u32) -> Seq<DepthEntry>
    decreases s.len(),
{
    if s.len() == 0 {
        Seq::empty()
    } else {
        let rest = spec_del_from_depth(s.drop_last(), et, lvl);
        let e = s.last();
        if e.entry_type != et || spec_opt_u32_lt(e.price_level, Some(lvl)) {
            rest.push(e)
        } else {
            rest
        }
    }
}

/// The Overlay transformer: sparse overwrite, including the price, of every
/// row matching `(et, Some(lvl))`.
pub open spec fn spec_overlay_fields(e: DepthEntry, inc: DepthIncrement) -> DepthEntry {
    DepthEntry {
        price: if inc.price is Some {
            inc.price
        } else {
            e.price
        },
        ..spec_change_fields(e, inc)
    }
}

pub open spec fn spec_overlay_depth(s: Seq<DepthEntry>, inc: DepthIncrement, lvl: u32) -> Seq<
    DepthEntry,
> {
    s.map(
        |j: int, e: DepthEntry|
            if e.price_level == Some(lvl) && e.entry_type == inc.entry_type {
                spec_overlay_fields(e, inc)
            } else {
                e
            },
    )
}

// ---------------------------------------------------------------------------
// Executable operations.
// ---------------------------------------------------------------------------

/// Insertion-position scan: once the target side has been seen, stop at the
/// first row of another type or at the first level not below the new one.
pub fn get_new_depth_idx(depths: &Vec<DepthEntry>, new_depth: &DepthEntry) -> (r: usize)
    ensures
        r as int == spec_new_depth_idx(depths@, *new_depth),
        r <= depths@.len(),
{
    let n = depths.len();
    let mut pos: usize = 0;
    let mut entry_started = false;
    loop
        invariant_except_break
            entry_started == exists|j: int|
                0 <= j < pos && #[trigger] depths@[j].entry_type == new_depth.entry_type,
        invariant
            pos <= n,
            n == depths@.len(),
            spec_new_depth_idx(depths@, *new_depth) == spec_new_depth_idx_from(
                depths@,
                *new_depth,
                pos as int,
            ),
        ensures
            pos <= depths@.len(),
            pos as int == spec_new_depth_idx(depths@, *new_depth),
        decreases n - pos,
    {
        if pos >= n {
            break ;
        }
        let e = &depths[pos];
        let ghost started_before = entry_started;
        if new_depth.entry_type == e.entry_type {
            entry_started = true;
        }
        if entry_started && e.entry_type != new_depth.entry_type {
            proof {
                assert(spec_scan_stop(depths@, *new_depth, pos as int));
            }
            break ;
        }
        if opt_u32_ge(e.price_level, new_depth.price_level) && entry_started {
            proof {
                assert(spec_scan_stop(depths@, *new_depth, pos as int));
            }
            break ;
        }
        proof {
            assert(!spec_scan_stop(depths@, *new_depth, pos as int));
        }
        pos = pos + 1;
        proof {
            assert(entry_started == exists|j: int|
                0 <= j < pos && #[trigger] depths@[j].entry_type == new_depth.entry_type) by {
                if entry_started && !started_before {
                    assert(depths@[pos - 1].entry_type == new_depth.entry_type);
                }
            }
        }
    }
    pos
}

/// First row with the given entry type.
fn find_type_idx(entries: &Vec<DepthEntry>, et: u32) -> (r: Option<usize>)
    ensures
        match r {
            Some(i) => i as int == spec_find_type_from(entries@, et, 0) && i < entries@.len(),
            None => spec_find_type_from(entries@, et, 0) == -1,
        },
{
    let n = entries.len();
    let mut i: usize = 0;
    while i < n
        invariant
            i <= n,
            n == entries@.len(),
            spec_find_type_from(entries@, et, 0) == spec_find_type_from(entries@, et, i as int),
        decreases n - i,
    {
        if entries[i].entry_type == et {
            return Some(i);
        }
        i = i + 1;
    }
    None
}

/// First row matching the (type, level) key.
fn find_level_idx(entries: &Vec<DepthEntry>, et: u32, lvl: u32) -> (r: Option<usize>)
    ensures
        match r {
            Some(i) => i as int == spec_find_level_from(entries@, et, lvl, 0) && i
                < entries@.len(),
            None => spec_find_level_from(entries@, et, lvl, 0) == -1,
        },
{
    let n = entries.len();
    let mut i: usize = 0;
    while i < n
        invariant
            i <= n,
            n == entries@.len(),
            spec_find_level_from(entries@, et, lvl, 0) == spec_find_level_from(
                entries@,
                et,
                lvl,
                i as int,
            ),
        decreases n - i,
    {
        if entries[i].entry_type == et && entries[i].price_level == Some(lvl) {
            return Some(i);
        }
        i = i + 1;
    }
    None
}

/// Add: insert the new row at its scan position and push deeper same-side
/// rows one level down.
pub fn add_depth(depth_snapshot: &mut DepthSnapshot, md_incr_grp: &DepthIncrement)
    requires
        old(depth_snapshot).entries@.len() < 100_000_000,
        md_incr_grp.price_level is Some ==> md_incr_grp.price_level->0 < 0xffff_ffff,
        forall|i: int|
            0 <= i < old(depth_snapshot).entries@.len() && (#[trigger] old(
                depth_snapshot,
            ).entries@[i]).price_level is Some ==> old(depth_snapshot).entries@[i].price_level->0
                < 0xffff_ffff,
    ensures
        final(depth_snapshot).entries@ == spec_add_depth(
            old(depth_snapshot).entries@,
            *md_incr_grp,
        ),
        *final(depth_snapshot) == (DepthSnapshot {
            entries: final(depth_snapshot).entries,
            ..*old(depth_snapshot)
        }),
{
    let entry_type = md_incr_grp.entry_type;
    let mut new_md_ssh_grp = DepthEntry::from_md_incr_grp(md_incr_grp);
    if entry_type < 2 && new_md_ssh_grp.price_level.is_none() {
        new_md_ssh_grp = DepthEntry { price_level: Some(1), ..new_md_ssh_grp };
    }

    let pos: usize = if entry_type < 2 {
        get_new_depth_idx(&depth_snapshot.entries, &new_md_ssh_grp)
    } else {
        let found = find_type_idx(&depth_snapshot.entries, entry_type);
        match found {
            Some(p) => {
                depth_snapshot.entries.remove(p);
                p
            },
            None => 0,
        }
    };

    depth_snapshot.entries.insert(pos, new_md_ssh_grp);

    let ghost s2 = depth_snapshot.entries@;
    if new_md_ssh_grp.price_level.is_some() {
        let n = depth_snapshot.entries.len();
        let mut i: usize = pos + 1;
        while i < n
            invariant
                pos < i <= n,
                entry_type == md_incr_grp.entry_type,
                n == depth_snapshot.entries@.len(),
                *depth_snapshot == (DepthSnapshot {
                    entries: depth_snapshot.entries,
                    ..*old(depth_snapshot)
                }),
                n == s2.len(),
                n < 100_000_001,
                forall|j: int|
                    0 <= j < s2.len() && (#[trigger] s2[j]).price_level is Some
                        ==> s2[j].price_level->0 < 0xffff_ffff,
                forall|j: int|
                    i <= j < n ==> #[trigger] depth_snapshot.entries@[j] == s2[j],
                forall|j: int|
                    0 <= j < i ==> #[trigger] depth_snapshot.entries@[j] == (if j > pos
                        && s2[j].entry_type == md_incr_grp.entry_type && s2[j].price_level is Some {
                        spec_bump_level(s2[j])
                    } else {
                        s2[j]
                    }),
            decreases n - i,
        {
            let e = depth_snapshot.entries[i];
            if e.entry_type == entry_type && e.price_level.is_some() {
                let lvl = match e.price_level {
                    Some(l) => l,
                    None => 0,
                };
                let bumped = DepthEntry { price_level: Some(lvl + 1), ..e };
                depth_snapshot.entries.set(i, bumped);
            }
            i = i + 1;
        }
        proof {
            assert(depth_snapshot.entries@ =~= spec_add_depth(
                old(depth_snapshot).entries@,
                *md_incr_grp,
            ));
        }
    } else {
        proof {
            assert(depth_snapshot.entries@ =~= spec_add_depth(
                old(depth_snapshot).entries@,
                *md_incr_grp,
            ));
        }
    }
}

/// Change: sparse-overwrite the row at the given level, inserting it when it
/// does not exist; a change without a level is ignored.
pub fn change_depth(depth_snapshot: &mut DepthSnapshot, md_incr_grp: &DepthIncrement) -> (applied:
    bool)
    requires
        old(depth_snapshot).entries@.len() < 100_000_000,
        md_incr_grp.price_level is Some ==> md_incr_grp.price_level->0 < 0xffff_ffff,
        forall|i: int|
            0 <= i < old(depth_snapshot).entries@.len() && (#[trigger] old(
                depth_snapshot,
            ).entries@[i]).price_level is Some ==> old(depth_snapshot).entries@[i].price_level->0
                < 0xffff_ffff,
    ensures
        applied == (md_incr_grp.price_level is Some),
        applied ==> final(depth_snapshot).entries@ == spec_change_depth(
            old(depth_snapshot).entries@,
            *md_incr_grp,
            md_incr_grp.price_level->0,
        ),
        !applied ==> *final(depth_snapshot) == *old(depth_snapshot),
        *final(depth_snapshot) == (DepthSnapshot {
            entries: final(depth_snapshot).entries,
            ..*old(depth_snapshot)
        }),
{
    let level = match md_incr_grp.price_level {
        Some(l) => l,
        None => {
            return false;
        },
    };

    let found = find_level_idx(&depth_snapshot.entries, md_incr_grp.entry_type, level);
    let pos = match found {
        Some(p) => p,
        None => {
            add_depth(depth_snapshot, md_incr_grp);
            return true;
        },
    };

    let e = depth_snapshot.entries[pos];
    let updated = DepthEntry {
        size: match md_incr_grp.size {
            Some(v) => Some(v),
            None => e.size,
        },
        order_count: match md_incr_grp.order_count {
            Some(v) => Some(v),
            None => e.order_count,
        },
        entry_time: match md_incr_grp.entry_time {
            Some(v) => Some(v),
            None => e.entry_time,
        },
        pste: match md_incr_grp.pste {
            Some(v) => Some(v),
            None => e.pste,
        },
        quote_condition: match md_incr_grp.quote_condition {
            Some(v) => Some(v),
            None => e.quote_condition,
        },
        ..e
    };
    depth_snapshot.entries.set(pos, updated);
    true
}

/// Delete: remove the row at the given level and pull deeper same-side rows
/// one level up; a delete without a level is ignored.
pub fn del_depth(depth_snapshot: &mut DepthSnapshot, md_incr_grp: &DepthIncrement) -> (applied:
    bool)
    ensures
        applied == (md_incr_grp.price_level is Some),
        applied ==> final(depth_snapshot).entries@ == spec_del_depth(
            old(depth_snapshot).entries@,
            md_incr_grp.entry_type,
            md_incr_grp.price_level->0,
        ),
        !applied ==> *final(depth_snapshot) == *old(depth_snapshot),
        *final(depth_snapshot) == (DepthSnapshot {
            entries: final(depth_snapshot).entries,
            ..*old(depth_snapshot)
        }),
{
    let level = match md_incr_grp.price_level {
        Some(l) => l,
        None => {
            return false;
        },
    };
    let entry_type = md_incr_grp.entry_type;

    let n = depth_snapshot.entries.len();
    let mut out: Vec<DepthEntry> = Vec::new();
    let mut i: usize = 0;
    while i < n
        invariant
            i <= n,
            n == depth_snapshot.entries@.len(),
            out@ == spec_del_depth(depth_snapshot.entries@.take(i as int), entry_type, level),
        decreases n - i,
    {
        let e = depth_snapshot.entries[i];
        if e.entry_type == entry_type && e.price_level == Some(level) {
            // removed
        } else if e.entry_type == entry_type && e.price_level.is_some() {
            let l = match e.price_level {
                Some(l) => l,
                None => 0,
            };
            if l > level {
                out.push(DepthEntry { price_level: Some(l - 1), ..e });
            } else {
                out.push(e);
            }
        } else {
            out.push(e);
        }
        proof {
            let t = depth_snapshot.entries@.take(i + 1);
            assert(t.drop_last() =~= depth_snapshot.entries@.take(i as int));
            assert(t.last() == depth_snapshot.entries@[i as int]);
        }
        i = i + 1;
    }
    proof {
        assert(depth_snapshot.entries@.take(n as int) =~= depth_snapshot.entries@);
    }
    depth_snapshot.entries = out;
    true
}

/// DeleteThru: drop every same-side row at or above the cutoff level, then
/// renumber the surviving same-side rows from one; ignored without a level.
pub fn del_thru_depth(depth_snapshot: &mut DepthSnapshot, md_incr_grp: &DepthIncrement) -> (applied:
    bool)
    requires
        old(depth_snapshot).entries@.len() < 100_000_000,
    ensures
        applied == (md_incr_grp.price_level is Some),
        applied ==> final(depth_snapshot).entries@ == spec_del_thru_depth(
            old(depth_snapshot).entries@,
            md_incr_grp.entry_type,
            md_incr_grp.price_level->0,
        ),
        !applied ==> *final(depth_snapshot) == *old(depth_snapshot),
        *final(depth_snapshot) == (DepthSnapshot {
            entries: final(depth_snapshot).entries,
            ..*old(depth_snapshot)
        }),
{
    let level = match md_incr_grp.price_level {
        Some(l) => l,
        None => {
            return false;
        },
    };
    let entry_type = md_incr_grp.entry_type;

    let n = depth_snapshot.entries.len();
    let mut kept: Vec<DepthEntry> = Vec::new();
    let mut i: usize = 0;
    while i < n
        invariant
            i <= n,
            n == depth_snapshot.entries@.len(),
            kept@.len() <= i,
            kept@ == spec_del_thru_retain(
                depth_snapshot.entries@.take(i as int),
                entry_type,
                level,
            ),
        decreases n - i,
    {
        let e = depth_snapshot.entries[i];
        if e.entry_type != entry_type || opt_u32_gt(e.price_level, Some(level)) {
            kept.push(e);
        }
        proof {
            let t = depth_snapshot.entries@.take(i + 1);
            assert(t.drop_last() =~= depth_snapshot.entries@.take(i as int));
            assert(t.last() == depth_snapshot.entries@[i as int]);
        }
        i = i + 1;
    }
    proof {
        assert(depth_snapshot.entries@.take(n as int) =~= depth_snapshot.entries@);
    }

    // Renumber pass over the retained rows.
    let ghost ks = kept@;
    let m = kept.len();
    let mut price_level: u32 = 1;
    let mut j: usize = 0;
    while j < m
        invariant
            j <= m,
            m == kept@.len(),
            m == ks.len(),
            m < 100_000_001,
            price_level as int == spec_renumber_count(ks.take(j as int), entry_type, level) + 1,
            forall|x: int| j <= x < m ==> #[trigger] kept@[x] == ks[x],
            forall|x: int|
                0 <= x < j ==> #[trigger] kept@[x] == (if ks[x].entry_type == entry_type
                    && ks[x].price_level is Some && ks[x].price_level->0 > level {
                    DepthEntry {
                        price_level: Some(
                            (spec_renumber_count(ks.take(x), entry_type, level) + 1) as u32,
                        ),
                        ..ks[x]
                    }
                } else {
                    ks[x]
                }),
        decreases m - j,
    {
        let e = kept[j];
        proof {
            let t = ks.take(j + 1);
            assert(t.drop_last() =~= ks.take(j as int));
            assert(t.last() == ks[j as int]);
            lemma_renumber_count_bounds(ks.take(j as int), entry_type, level);
        }
        if e.entry_type == entry_type && e.price_level.is_some() {
            let l = match e.price_level {
                Some(l) => l,
                None => 0,
            };
            if l > level {
                kept.set(j, DepthEntry { price_level: Some(price_level), ..e });
                price_level = price_level + 1;
            }
        }
        j = j + 1;
    }
    proof {
        assert(ks.take(m as int) =~= ks);
        assert(kept@ =~= spec_del_thru_renumber(ks, entry_type, level));
    }
    depth_snapshot.entries = kept;
    true
}

proof fn lemma_renumber_count_bounds(s: Seq<DepthEntry>, et: u32, lvl: u32)
    ensures
        0 <= spec_renumber_count(s, et, lvl) <= s.len(),
    decreases s.len(),
{
    if s.len() > 0 {
        lemma_renumber_count_bounds(s.drop_last(), et, lvl);
    }
}

/// DeleteFrom: drop every same-side row at or below the cutoff level, keeping
/// the shallower rows and their numbering; ignored without a level.
pub fn del_from_depth(depth_snapshot: &mut DepthSnapshot, md_incr_grp: &DepthIncrement) -> (applied:
    bool)
    ensures
        applied == (md_incr_grp.price_level is Some),
        applied ==> final(depth_snapshot).entries@ == spec_del_from_depth(
            old(depth_snapshot).entries@,
            md_incr_grp.entry_type,
            md_incr_grp.price_level->0,
        ),
        !applied ==> *final(depth_snapshot) == *old(depth_snapshot),
        *final(depth_snapshot) == (DepthSnapshot {
            entries: final(depth_snapshot).entries,
            ..*old(depth_snapshot)
        }),
{
    let level = match md_incr_grp.price_level {
        Some(l) => l,
        None => {
            return false;
        },
    };
    let entry_type = md_incr_grp.entry_type;

    let n = depth_snapshot.entries.len();
    let mut out: Vec<DepthEntry> = Vec::new();
    let mut i: usize = 0;
    while i < n
        invariant
            i <= n,
            n == depth_snapshot.entries@.len(),
            out@ == spec_del_from_depth(depth_snapshot.entries@.take(i as int), entry_type, level),
        decreases n - i,
    {
        let e = depth_snapshot.entries[i];
        let keep = e.entry_type != entry_type || !opt_u32_ge(e.price_level, Some(level));
        if keep {
            out.push(e);
        }
        proof {
            let t = depth_snapshot.entries@.take(i + 1);
            assert(t.drop_last() =~= depth_snapshot.entries@.take(i as int));
            assert(t.last() == depth_snapshot.entries@[i as int]);
        }
        i = i + 1;
    }
    proof {
        assert(depth_snapshot.entries@.take(n as int) =~= depth_snapshot.entries@);
    }
    depth_snapshot.entries = out;
    true
}

/// Overlay: sparse-overwrite (price included) every row matching the level;
/// ignored without a level.
pub fn overlay_depth(depth_snapshot: &mut DepthSnapshot, md_incr_grp: &DepthIncrement) -> (applied:
    bool)
    ensures
        applied == (md_incr_grp.price_level is Some),
        applied ==> final(depth_snapshot).entries@ == spec_overlay_depth(
            old(depth_snapshot).entries@,
            *md_incr_grp,
            md_incr_grp.price_level->0,
        ),
        !applied ==> *final(depth_snapshot) == *old(depth_snapshot),
        *final(depth_snapshot) == (DepthSnapshot {
            entries: final(depth_snapshot).entries,
            ..*old(depth_snapshot)
        }),
{
    let level = match md_incr_grp.price_level {
        Some(l) => l,
        None => {
            return false;
        },
    };

    let ghost s0 = depth_snapshot.entries@;
    let n = depth_snapshot.entries.len();
    let mut i: usize = 0;
    while i < n
        invariant
            i <= n,
            n == depth_snapshot.entries@.len(),
            n == s0.len(),
            *depth_snapshot == (DepthSnapshot {
                entries: depth_snapshot.entries,
                ..*old(depth_snapshot)
            }),
            forall|x: int| i <= x < n ==> #[trigger] depth_snapshot.entries@[x] == s0[x],
            forall|x: int|
                0 <= x < i ==> #[trigger] depth_snapshot.entries@[x] == (if s0[x].price_level
                    == Some(level) && s0[x].entry_type == md_incr_grp.entry_type {
                    spec_overlay_fields(s0[x], *md_incr_grp)
                } else {
                    s0[x]
                }),
        decreases n - i,
    {
        let e = depth_snapshot.entries[i];
        if e.price_level == Some(level) && e.entry_type == md_incr_grp.entry_type {
            let updated = DepthEntry {
                price: match md_incr_grp.price {
                    Some(v) => Some(v),
                    None => e.price,
                },
                size: match md_incr_grp.size {
                    Some(v) => Some(v),
                    None => e.size,
                },
                order_count: match md_incr_grp.order_count {
                    Some(v) => Some(v),
                    None => e.order_count,
                },
                entry_time: match md_incr_grp.entry_time {
                    Some(v) => Some(v),
                    None => e.entry_time,
                },
                pste: match md_incr_grp.pste {
                    Some(v) => Some(v),
                    None => e.pste,
                },
                quote_condition: match md_incr_grp.quote_condition {
                    Some(v) => Some(v),
                    None => e.quote_condition,
                },
                ..e
            };
            depth_snapshot.entries.set(i, updated);
        }
        i = i + 1;
    }
    proof {
        assert(depth_snapshot.entries@ =~= spec_overlay_depth(
            s0,
            *md_incr_grp,
            md_incr_grp.price_level->0,
        ));
    }
    true
}


// ---------------------------------------------------------------------------
// Trades.
// ---------------------------------------------------------------------------

/// First row at or after `i` on either book side whose price matches.
pub open spec fn spec_find_trade_from(s: Seq<DepthEntry>, px: i64, i: int) -> int
    decreases s.len() - i,
{
    if i < 0 || i >= s.len() {
        -1
    } else if s[i].entry_type < 2 && s[i].price == Some(px) {
        i
    } else {
        spec_find_trade_from(s, px, i + 1)
    }
}

/// Pull one level up every same-side row ranked deeper than the consumed
/// row, closing its side up; rows without a rank, and rows at or above the
/// consumed rank, stay where they are.
pub open spec fn spec_dec_deeper(
    s: Seq<DepthEntry>,
    et: u32,
    removed_level: Option<u32>,
) -> Seq<DepthEntry> {
    s.map(
        |j: int, e: DepthEntry|
            if e.entry_type == et && e.price_level is Some && removed_level is Some
                && e.price_level->0 > removed_level->0 {
                spec_dec_level(e)
            } else {
                e
            },
    )
}

/// The Trade transformer: consume `qty` at the matching price; a fully
/// consumed row leaves the book and the rows ranked deeper than it close
/// up by one; then the trade report itself is added to the snapshot.
pub open spec fn spec_do_trade(s: Seq<DepthEntry>, inc: DepthIncrement) -> Seq<DepthEntry> {
    let qty = inc.size->0;
    let k = spec_find_trade_from(s, inc.price->0, 0);
    if k < 0 {
        s
    } else if spec_opt_i64_gt(s[k].size, Some(qty)) {
        let reduced = s.update(
            k,
            DepthEntry { size: Some((s[k].size->0 - qty) as i64), ..s[k] },
        );
        spec_add_depth(reduced, inc)
    } else {
        let et = s[k].entry_type;
        spec_add_depth(spec_dec_deeper(s.remove(k), et, s[k].price_level), inc)
    }
}

fn find_trade_idx(entries: &Vec<DepthEntry>, px: i64) -> (r: Option<usize>)
    ensures
        match r {
            Some(i) => i as int == spec_find_trade_from(entries@, px, 0) && i < entries@.len(),
            None => spec_find_trade_from(entries@, px, 0) == -1,
        },
{
    let n = entries.len();
    let mut i: usize = 0;
    while i < n
        invariant
            i <= n,
            n == entries@.len(),
            spec_find_trade_from(entries@, px, 0) == spec_find_trade_from(entries@, px, i as int),
        decreases n - i,
    {
        if entries[i].entry_type < 2 && entries[i].price == Some(px) {
            return Some(i);
        }
        i = i + 1;
    }
    None
}

/// Trade: decrement the matching row's size by the traded quantity, or
/// remove it when consumed, then record the trade fields via an Add.
/// Returns whether a row matched the trade price.
pub fn do_trade(depth_snapshot: &mut DepthSnapshot, md_incr_grp: &DepthIncrement) -> (matched:
    bool)
    requires
        old(depth_snapshot).entries@.len() < 100_000_000,
        md_incr_grp.size is Some,
        md_incr_grp.price is Some,
        md_incr_grp.size->0 >= 0,
        md_incr_grp.price_level is Some ==> md_incr_grp.price_level->0 < 0xffff_ffff,
        forall|i: int|
            0 <= i < old(depth_snapshot).entries@.len() && (#[trigger] old(
                depth_snapshot,
            ).entries@[i]).price_level is Some ==> old(depth_snapshot).entries@[i].price_level->0
                < 0xffff_ffff,
    ensures
        matched == (spec_find_trade_from(old(depth_snapshot).entries@, md_incr_grp.price->0, 0)
            >= 0),
        matched ==> final(depth_snapshot).entries@ == spec_do_trade(
            old(depth_snapshot).entries@,
            *md_incr_grp,
        ),
        !matched ==> *final(depth_snapshot) == *old(depth_snapshot),
        *final(depth_snapshot) == (DepthSnapshot {
            entries: final(depth_snapshot).entries,
            ..*old(depth_snapshot)
        }),
{
    let trade_qty = match md_incr_grp.size {
        Some(q) => q,
        None => 0,
    };
    let trade_price = match md_incr_grp.price {
        Some(p) => p,
        None => 0,
    };

    let found = find_trade_idx(&depth_snapshot.entries, trade_price);
    let pos = match found {
        Some(p) => p,
        None => {
            return false;
        },
    };

    let e = depth_snapshot.entries[pos];
    if opt_i64_gt(e.size, Some(trade_qty)) {
        let sz = match e.size {
            Some(v) => v,
            None => 0,
        };
        depth_snapshot.entries.set(pos, DepthEntry { size: Some(sz - trade_qty), ..e });
    } else {
        let removed = depth_snapshot.entries.remove(pos);
        let removed_level = removed.price_level;
        let ghost after_remove = depth_snapshot.entries@;
        let n = depth_snapshot.entries.len();
        let mut i: usize = 0;
        while i < n
            invariant
                i <= n,
                n == depth_snapshot.entries@.len(),
                n == after_remove.len(),
                *depth_snapshot == (DepthSnapshot {
                    entries: depth_snapshot.entries,
                    ..*old(depth_snapshot)
                }),
                forall|x: int|
                    i <= x < n ==> #[trigger] depth_snapshot.entries@[x] == after_remove[x],
                forall|x: int|
                    0 <= x < i ==> #[trigger] depth_snapshot.entries@[x] == (if after_remove[x].entry_type
                        == removed.entry_type && after_remove[x].price_level is Some
                        && removed_level is Some && after_remove[x].price_level->0
                        > removed_level->0 {
                        spec_dec_level(after_remove[x])
                    } else {
                        after_remove[x]
                    }),
            decreases n - i,
        {
            let x = depth_snapshot.entries[i];
            if x.entry_type == removed.entry_type && x.price_level.is_some() {
                let l = match x.price_level {
                    Some(l) => l,
                    None => 0,
                };
                let rl = match removed_level {
                    Some(l) => l,
                    None => u32::MAX,
                };
                if removed_level.is_some() && l > rl {
                    depth_snapshot.entries.set(i, DepthEntry { price_level: Some(l - 1), ..x });
                }
            }
            i = i + 1;
        }
        proof {
            assert(depth_snapshot.entries@ =~= spec_dec_deeper(
                after_remove,
                removed.entry_type,
                removed_level,
            ));
        }
    }

    add_depth(depth_snapshot, md_incr_grp);
    true
}

// ---------------------------------------------------------------------------
// Sequence-fenced application of one incremental message.
// ---------------------------------------------------------------------------

/// The fields an action needs before it can be applied at all; a message
/// missing them is dropped.
pub open spec fn spec_inc_valid(inc: DepthIncrement) -> bool {
    if inc.update_action == ACTION_ADD && inc.entry_type == ENTRY_TRADE {
        inc.size is Some && inc.price is Some && inc.size->0 >= 0
    } else if inc.update_action == ACTION_CHANGE || inc.update_action == ACTION_DELETE
        || inc.update_action == ACTION_DELETE_THRU || inc.update_action == ACTION_DELETE_FROM
        || inc.update_action == ACTION_OVERLAY {
        inc.price_level is Some
    } else {
        true
    }
}

/// One action against the entry sequence; an action code this engine does
/// not know leaves the book unchanged.
pub open spec fn spec_apply_action(s: Seq<DepthEntry>, inc: DepthIncrement) -> Seq<DepthEntry> {
    if inc.update_action == ACTION_ADD && inc.entry_type == ENTRY_TRADE {
        spec_do_trade(s, inc)
    } else if inc.update_action == ACTION_ADD {
        spec_add_depth(s, inc)
    } else if inc.update_action == ACTION_CHANGE {
        spec_change_depth(s, inc, inc.price_level->0)
    } else if inc.update_action == ACTION_DELETE {
        spec_del_depth(s, inc.entry_type, inc.price_level->0)
    } else if inc.update_action == ACTION_DELETE_THRU {
        spec_del_thru_depth(s, inc.entry_type, inc.price_level->0)
    } else if inc.update_action == ACTION_DELETE_FROM {
        spec_del_from_depth(s, inc.entry_type, inc.price_level->0)
    } else if inc.update_action == ACTION_OVERLAY {
        spec_overlay_depth(s, inc, inc.price_level->0)
    } else {
        s
    }
}

/// The sequence-fencing discipline: an incremental message is applied only
/// when its sequence number strictly exceeds the instrument's, and then the
/// instrument's number advances to it.
pub open spec fn spec_gate_applies(seq: u32, msg_seq: u32, inc: DepthIncrement) -> bool {
    msg_seq > seq && spec_inc_valid(inc)
}

/// Applies one decoded incremental message against the live snapshot under
/// the sequence fence.  A stale or duplicate message, or one missing the
/// fields its action needs, changes nothing and reports `false`.
pub fn process_mcx_depth_incremental(
    depth_snapshot: &mut DepthSnapshot,
    current_seq: &mut u32,
    md_incr_grp: &DepthIncrement,
    msg_seq: u32,
) -> (applied: bool)
    requires
        old(depth_snapshot).entries@.len() < 100_000_000,
        md_incr_grp.price_level is Some ==> md_incr_grp.price_level->0 < 0xffff_ffff,
        forall|i: int|
            0 <= i < old(depth_snapshot).entries@.len() && (#[trigger] old(
                depth_snapshot,
            ).entries@[i]).price_level is Some ==> old(depth_snapshot).entries@[i].price_level->0
                < 0xffff_ffff,
    ensures
        applied == spec_gate_applies(*old(current_seq), msg_seq, *md_incr_grp),
        applied ==> final(depth_snapshot).entries@ == spec_apply_action(
            old(depth_snapshot).entries@,
            *md_incr_grp,
        ) && final(depth_snapshot).msg_seq_num == Some(msg_seq) && *final(current_seq) == msg_seq
            && *final(depth_snapshot) == (DepthSnapshot {
            entries: final(depth_snapshot).entries,
            msg_seq_num: Some(msg_seq),
            ..*old(depth_snapshot)
        }),
        !applied ==> *final(depth_snapshot) == *old(depth_snapshot) && *final(current_seq) == *old(
            current_seq,
        ),
{
    if !(msg_seq > *current_seq) {
        return false;
    }

    let action = md_incr_grp.update_action;
    if action == ACTION_ADD && md_incr_grp.entry_type == ENTRY_TRADE {
        let valid = md_incr_grp.size.is_some() && md_incr_grp.price.is_some() && (match md_incr_grp.size {
            Some(q) => q >= 0,
            None => false,
        });
        if !valid {
            return false;
        }
        do_trade(depth_snapshot, md_incr_grp);
    } else if action == ACTION_ADD {
        add_depth(depth_snapshot, md_incr_grp);
    } else if action == ACTION_CHANGE {
        if md_incr_grp.price_level.is_none() {
            return false;
        }
        change_depth(depth_snapshot, md_incr_grp);
    } else if action == ACTION_DELETE {
        if md_incr_grp.price_level.is_none() {
            return false;
        }
        del_depth(depth_snapshot, md_incr_grp);
    } else if action == ACTION_DELETE_THRU {
        if md_incr_grp.price_level.is_none() {
            return false;
        }
        del_thru_depth(depth_snapshot, md_incr_grp);
    } else if action == ACTION_DELETE_FROM {
        if md_incr_grp.price_level.is_none() {
            return false;
        }
        del_from_depth(depth_snapshot, md_incr_grp);
    } else if action == ACTION_OVERLAY {
        if md_incr_grp.price_level.is_none() {
            return false;
        }
        overlay_depth(depth_snapshot, md_incr_grp);
    } else {
        // An unknown action advances the fence but leaves the book alone.
    }

    depth_snapshot.msg_seq_num = Some(msg_seq);
    *current_seq = msg_seq;
    true
}

/// Installs a full refresh: a snapshot whose sequence number strictly
/// exceeds the instrument's replaces the book wholesale and advances the
/// fence; anything else is dropped.
pub fn process_mcx_depth_snapshot(
    slot: &mut Option<DepthSnapshot>,
    current_seq: &mut u32,
    snapshot: DepthSnapshot,
) -> (installed: bool)
    ensures
        installed == (snapshot.msg_seq_num matches Some(n) && n > *old(current_seq)),
        installed ==> *final(slot) == Some(snapshot) && *final(current_seq)
            == snapshot.msg_seq_num->0,
        !installed ==> *final(slot) == *old(slot) && *final(current_seq) == *old(current_seq),
{
    let n = match snapshot.msg_seq_num {
        Some(n) => n,
        None => {
            return false;
        },
    };
    if n > *current_seq {
        *slot = Some(snapshot);
        *current_seq = n;
        true
    } else {
        false
    }
}

// ---------------------------------------------------------------------------
// Replay and ordering laws for the sequence fence.
// ---------------------------------------------------------------------------

/// Applying the same incremental message twice is a no-op the second time:
/// once a message's sequence number has been recorded, the fence rejects
/// any replay of it.
pub proof fn lemma_replay_is_noop(seq: u32, msg_seq: u32, inc: DepthIncrement)
    requires
        spec_gate_applies(seq, msg_seq, inc),
    ensures
        !spec_gate_applies(msg_seq, msg_seq, inc),
{
}

/// A message whose sequence number does not exceed the instrument's is
/// never applied, so out-of-order delivery after a newer message is a
/// no-op.
pub proof fn lemma_out_of_order_is_noop(seq: u32, msg_seq: u32, inc: DepthIncrement)
    requires
        msg_seq <= seq,
    ensures
        !spec_gate_applies(seq, msg_seq, inc),
{
}


// ---------------------------------------------------------------------------
// The book invariant: each side's levels in storage order are 1, 2, ..., k.
// ---------------------------------------------------------------------------

/// The rows of one side, in storage order.
pub open spec fn spec_side_rows(s: Seq<DepthEntry>, et: u32) -> Seq<DepthEntry>
    decreases s.len(),
{
    if s.len() == 0 {
        Seq::empty()
    } else {
        let rest = spec_side_rows(s.drop_last(), et);
        if s.last().entry_type == et {
            rest.push(s.last())
        } else {
            rest
        }
    }
}

/// One side is well-ranked: its i-th row in storage order sits at level
/// i + 1, so the levels are a gapless range starting at one.
pub open spec fn spec_wf_side(s: Seq<DepthEntry>, et: u32) -> bool {
    forall|i: int|
        0 <= i < spec_side_rows(s, et).len() ==> (#[trigger] spec_side_rows(s, et)[i]).price_level
            == Some((i + 1) as u32)
}

/// The book invariant over both sides.
pub open spec fn spec_wf_book(s: Seq<DepthEntry>) -> bool {
    spec_wf_side(s, ENTRY_BID) && spec_wf_side(s, ENTRY_ASK)
}

/// The retain pass of DeleteThru leaves only same-side rows ranked
/// strictly beyond the cutoff, and leaves the other side alone.
proof fn lemma_del_thru_retain_rows(s: Seq<DepthEntry>, et: u32, lvl: u32, other: u32)
    requires
        other != et,
    ensures
        forall|j: int|
            0 <= j < spec_del_thru_retain(s, et, lvl).len() && (#[trigger] spec_del_thru_retain(
                s,
                et,
                lvl,
            )[j]).entry_type == et ==> spec_del_thru_retain(s, et, lvl)[j].price_level is Some
                && spec_del_thru_retain(s, et, lvl)[j].price_level->0 > lvl,
        spec_side_rows(spec_del_thru_retain(s, et, lvl), other) == spec_side_rows(s, other),
    decreases s.len(),
{
    if s.len() > 0 {
        lemma_del_thru_retain_rows(s.drop_last(), et, lvl, other);
        let r = spec_del_thru_retain(s, et, lvl);
        let pr = spec_del_thru_retain(s.drop_last(), et, lvl);
        if s.last().entry_type != et || spec_opt_u32_gt(s.last().price_level, Some(lvl)) {
            assert(r == pr.push(s.last()));
            assert(r.drop_last() =~= pr);
            if s.last().entry_type == other {
                assert(spec_side_rows(r, other) =~= spec_side_rows(pr, other).push(s.last()));
            } else {
                assert(spec_side_rows(r, other) =~= spec_side_rows(pr, other));
            }
        }
    }
}

/// Renumbering ranks the same-side rows consecutively from one, whatever
/// they were ranked before, and leaves the other side untouched.
proof fn lemma_renumber_ranks(r: Seq<DepthEntry>, et: u32, lvl: u32, other: u32)
    requires
        other != et,
        forall|j: int|
            0 <= j < r.len() && (#[trigger] r[j]).entry_type == et ==> r[j].price_level is Some
                && r[j].price_level->0 > lvl,
        r.len() < 0xffff_fffe,
    ensures
        spec_side_rows(spec_del_thru_renumber(r, et, lvl), et).len() == spec_renumber_count(
            r,
            et,
            lvl,
        ),
        forall|i: int|
            0 <= i < spec_side_rows(spec_del_thru_renumber(r, et, lvl), et).len() ==> (
            #[trigger] spec_side_rows(spec_del_thru_renumber(r, et, lvl), et)[i]).price_level
                == Some((i + 1) as u32),
        spec_side_rows(spec_del_thru_renumber(r, et, lvl), other) == spec_side_rows(r, other),
    decreases r.len(),
{
    lemma_renumber_count_bounds(r, et, lvl);
    if r.len() == 0 {
        assert(spec_del_thru_renumber(r, et, lvl) =~= Seq::<DepthEntry>::empty());
    } else {
        let pr = r.drop_last();
        lemma_renumber_ranks(pr, et, lvl, other);
        let full = spec_del_thru_renumber(r, et, lvl);
        let prev = spec_del_thru_renumber(pr, et, lvl);
        assert forall|j: int| 0 <= j < pr.len() implies full[j] == prev[j] by {
            assert(r.take(j) =~= pr.take(j));
        }
        assert(full.drop_last() =~= prev);
        assert(r.take(r.len() - 1) =~= pr);
        if r.last().entry_type == et {
            assert(full.last().price_level == Some(
                (spec_renumber_count(pr, et, lvl) + 1) as u32,
            ));
            assert(spec_side_rows(full, et) =~= spec_side_rows(prev, et).push(full.last()));
            assert(spec_side_rows(full, other) =~= spec_side_rows(prev, other));
        } else {
            assert(spec_side_rows(full, et) =~= spec_side_rows(prev, et));
            assert(spec_side_rows(full, other) =~= spec_side_rows(prev, other).push(full.last())
                || spec_side_rows(full, other) =~= spec_side_rows(prev, other));
            if r.last().entry_type == other {
                assert(spec_side_rows(full, other) =~= spec_side_rows(prev, other).push(
                    full.last(),
                ));
                assert(full.last() == r.last());
            } else {
                assert(spec_side_rows(full, other) =~= spec_side_rows(prev, other));
            }
        }
    }
}

/// DeleteThru restores the book invariant on its side unconditionally,
/// and preserves the other side's ranking as it was.
pub proof fn lemma_del_thru_preserves_book(s: Seq<DepthEntry>, et: u32, lvl: u32, other: u32)
    requires
        other != et,
        s.len() < 0xffff_fffe,
    ensures
        spec_wf_side(spec_del_thru_depth(s, et, lvl), et),
        spec_side_rows(spec_del_thru_depth(s, et, lvl), other) == spec_side_rows(s, other),
    decreases s.len(),
{
    lemma_del_thru_retain_rows(s, et, lvl, other);
    lemma_retain_len(s, et, lvl);
    lemma_renumber_ranks(spec_del_thru_retain(s, et, lvl), et, lvl, other);
}

proof fn lemma_retain_len(s: Seq<DepthEntry>, et: u32, lvl: u32)
    ensures
        spec_del_thru_retain(s, et, lvl).len() <= s.len(),
    decreases s.len(),
{
    if s.len() > 0 {
        lemma_retain_len(s.drop_last(), et, lvl);
    }
}

/// A side has no more rows than the whole book.
proof fn lemma_side_rows_len(s: Seq<DepthEntry>, et: u32)
    ensures
        spec_side_rows(s, et).len() <= s.len(),
    decreases s.len(),
{
    if s.len() > 0 {
        lemma_side_rows_len(s.drop_last(), et);
    }
}

/// When every row of the side is ranked below the cutoff, DeleteFrom
/// keeps the side whole.
proof fn lemma_del_from_keeps_all(s: Seq<DepthEntry>, et: u32, lvl: u32)
    requires
        forall|i: int|
            0 <= i < spec_side_rows(s, et).len() ==> spec_opt_u32_lt(
                (#[trigger] spec_side_rows(s, et)[i]).price_level,
                Some(lvl),
            ),
    ensures
        spec_side_rows(spec_del_from_depth(s, et, lvl), et) == spec_side_rows(s, et),
    decreases s.len(),
{
    if s.len() > 0 {
        let pr = s.drop_last();
        assert forall|i: int| 0 <= i < spec_side_rows(pr, et).len() implies spec_opt_u32_lt(
            (#[trigger] spec_side_rows(pr, et)[i]).price_level,
            Some(lvl),
        ) by {
            if s.last().entry_type == et {
                assert(spec_side_rows(s, et)[i] == spec_side_rows(pr, et)[i]);
            } else {
                assert(spec_side_rows(s, et) == spec_side_rows(pr, et));
            }
        }
        lemma_del_from_keeps_all(pr, et, lvl);
        let r = spec_del_from_depth(s, et, lvl);
        let prev = spec_del_from_depth(pr, et, lvl);
        if s.last().entry_type == et {
            let m = spec_side_rows(pr, et).len();
            assert(spec_side_rows(s, et).last() == s.last());
            assert(spec_opt_u32_lt(s.last().price_level, Some(lvl)));
            assert(r == prev.push(s.last()));
            assert(r.drop_last() =~= prev);
            assert(spec_side_rows(r, et) =~= spec_side_rows(prev, et).push(s.last()));
            assert(spec_side_rows(r, et) =~= spec_side_rows(s, et));
        } else {
            if spec_opt_u32_lt(s.last().price_level, Some(lvl)) || s.last().entry_type != et {
                assert(r == prev.push(s.last()));
                assert(r.drop_last() =~= prev);
                assert(spec_side_rows(r, et) =~= spec_side_rows(prev, et));
            }
            assert(spec_side_rows(s, et) == spec_side_rows(pr, et));
        }
    }
}

/// DeleteFrom keeps the shallow prefix of its side — still ranked from
/// one — and the other side whole.
pub proof fn lemma_del_from_preserves_book(s: Seq<DepthEntry>, et: u32, lvl: u32, other: u32)
    requires
        other != et,
        spec_wf_side(s, et),
        s.len() < 0xffff_fffe,
    ensures
        spec_wf_side(spec_del_from_depth(s, et, lvl), et),
        spec_side_rows(spec_del_from_depth(s, et, lvl), other) == spec_side_rows(s, other),
    decreases s.len(),
{
    if s.len() > 0 {
        let pr = s.drop_last();
        assert forall|i: int| 0 <= i < spec_side_rows(pr, et).len() implies (
        #[trigger] spec_side_rows(pr, et)[i]).price_level == Some((i + 1) as u32) by {
            if s.last().entry_type == et {
                assert(spec_side_rows(s, et)[i] == spec_side_rows(pr, et)[i]);
            } else {
                assert(spec_side_rows(s, et) == spec_side_rows(pr, et));
            }
        }
        lemma_del_from_preserves_book(pr, et, lvl, other);
        let r = spec_del_from_depth(s, et, lvl);
        let prev = spec_del_from_depth(pr, et, lvl);
        if s.last().entry_type != et || spec_opt_u32_lt(s.last().price_level, Some(lvl)) {
            assert(r == prev.push(s.last()));
            assert(r.drop_last() =~= prev);
            if s.last().entry_type == et {
                // The kept row ranks one past its side's prefix; every
                // earlier row ranks lower still, so the whole side stays.
                let m = spec_side_rows(pr, et).len();
                lemma_side_rows_len(pr, et);
                assert(spec_side_rows(s, et) =~= spec_side_rows(pr, et).push(s.last()));
                assert(spec_side_rows(s, et)[m as int] == s.last());
                assert(s.last().price_level == Some((m + 1) as u32));
                assert(m + 1 < lvl);
                assert forall|i: int|
                    0 <= i < spec_side_rows(pr, et).len() implies spec_opt_u32_lt(
                    (#[trigger] spec_side_rows(pr, et)[i]).price_level,
                    Some(lvl),
                ) by {
                    assert(spec_side_rows(pr, et)[i].price_level == Some((i + 1) as u32));
                    assert(i + 1 < lvl);
                }
                lemma_del_from_keeps_all(pr, et, lvl);
                assert(spec_side_rows(r, et) =~= spec_side_rows(prev, et).push(s.last()));
                assert(spec_side_rows(prev, et) == spec_side_rows(pr, et));
            } else {
                assert(spec_side_rows(r, et) =~= spec_side_rows(prev, et));
            }
            if s.last().entry_type == other {
                assert(spec_side_rows(r, other) =~= spec_side_rows(prev, other).push(s.last()));
                assert(spec_side_rows(s, other) =~= spec_side_rows(pr, other).push(s.last()));
            } else {
                assert(spec_side_rows(r, other) =~= spec_side_rows(prev, other));
                assert(spec_side_rows(s, other) =~= spec_side_rows(pr, other));
            }
        } else {
            assert(r == prev);
            if s.last().entry_type == other {
                assert(spec_side_rows(s, other) =~= spec_side_rows(pr, other).push(s.last()));
            } else {
                assert(spec_side_rows(s, other) =~= spec_side_rows(pr, other));
            }
        }
    }
}


/// Overlay rewrites fields in place but never a row's side or rank, so
/// the book invariant survives it untouched.
pub proof fn lemma_overlay_preserves_book(
    s: Seq<DepthEntry>,
    inc: DepthIncrement,
    lvl: u32,
    et: u32,
)
    requires
        spec_wf_side(s, et),
    ensures
        spec_wf_side(spec_overlay_depth(s, inc, lvl), et),
    decreases s.len(),
{
    let r = spec_overlay_depth(s, inc, lvl);
    lemma_overlay_side_ranks(s, inc, lvl, et);
}

proof fn lemma_overlay_side_ranks(s: Seq<DepthEntry>, inc: DepthIncrement, lvl: u32, et: u32)
    ensures
        spec_side_rows(spec_overlay_depth(s, inc, lvl), et).len() == spec_side_rows(s, et).len(),
        forall|i: int|
            0 <= i < spec_side_rows(s, et).len() ==> (#[trigger] spec_side_rows(
                spec_overlay_depth(s, inc, lvl),
                et,
            )[i]).price_level == spec_side_rows(s, et)[i].price_level && spec_side_rows(
                spec_overlay_depth(s, inc, lvl),
                et,
            )[i].entry_type == spec_side_rows(s, et)[i].entry_type,
    decreases s.len(),
{
    if s.len() > 0 {
        let pr = s.drop_last();
        lemma_overlay_side_ranks(pr, inc, lvl, et);
        let full = spec_overlay_depth(s, inc, lvl);
        let prev = spec_overlay_depth(pr, inc, lvl);
        assert forall|j: int| 0 <= j < pr.len() implies full[j] == prev[j] by {}
        assert(full.drop_last() =~= prev);
        if s.last().entry_type == et {
            assert(spec_side_rows(full, et) =~= spec_side_rows(prev, et).push(full.last()));
            assert(full.last().price_level == s.last().price_level);
            assert(spec_side_rows(s, et) =~= spec_side_rows(pr, et).push(s.last()));
        } else {
            assert(spec_side_rows(full, et) =~= spec_side_rows(prev, et));
            assert(spec_side_rows(s, et) =~= spec_side_rows(pr, et));
        }
    }
}


/// Delete restores the book invariant on its side for any rank at least
/// one: the removed rank's deeper rows close up by one, so the side's
/// ranks stay a gapless range from one; the other side is left whole.
pub proof fn lemma_del_preserves_book(s: Seq<DepthEntry>, et: u32, lvl: u32, other: u32)
    requires
        other != et,
        spec_wf_side(s, et),
        lvl >= 1,
        s.len() < 0xffff_fffe,
    ensures
        spec_wf_side(spec_del_depth(s, et, lvl), et),
        spec_side_rows(spec_del_depth(s, et, lvl), et).len() == (if lvl <= spec_side_rows(
            s,
            et,
        ).len() {
            spec_side_rows(s, et).len() - 1
        } else {
            spec_side_rows(s, et).len() as int
        }),
        spec_side_rows(spec_del_depth(s, et, lvl), other) == spec_side_rows(s, other),
    decreases s.len(),
{
    if s.len() > 0 {
        let pr = s.drop_last();
        assert forall|i: int| 0 <= i < spec_side_rows(pr, et).len() implies (
        #[trigger] spec_side_rows(pr, et)[i]).price_level == Some((i + 1) as u32) by {
            if s.last().entry_type == et {
                assert(spec_side_rows(s, et)[i] == spec_side_rows(pr, et)[i]);
            } else {
                assert(spec_side_rows(s, et) == spec_side_rows(pr, et));
            }
        }
        lemma_del_preserves_book(pr, et, lvl, other);
        lemma_side_rows_len(pr, et);
        let r = spec_del_depth(s, et, lvl);
        let prev = spec_del_depth(pr, et, lvl);
        if s.last().entry_type == et {
            let m = spec_side_rows(pr, et).len();
            assert(spec_side_rows(s, et) =~= spec_side_rows(pr, et).push(s.last()));
            assert(spec_side_rows(s, et)[m as int] == s.last());
            assert(s.last().price_level == Some((m + 1) as u32));
            if m + 1 == lvl {
                // The removed rank: its side prefix holds only lower ranks,
                // so the recursion removed and shifted nothing there.
                assert(r == prev);
                assert(spec_side_rows(r, et).len() == m);
            } else if m + 1 > lvl {
                // A deeper row: it closes up by one.
                assert(r == prev.push(spec_dec_level(s.last())));
                assert(r.drop_last() =~= prev);
                assert(spec_side_rows(r, et) =~= spec_side_rows(prev, et).push(
                    spec_dec_level(s.last()),
                ));
                assert(spec_dec_level(s.last()).price_level == Some(m as u32));
                assert(spec_side_rows(prev, et).len() == m - 1);
            } else {
                // A shallower row: kept with its rank.
                assert(!(s.last().price_level == Some(lvl)));
                assert(!(s.last().price_level->0 > lvl));
                assert(r == prev.push(s.last()));
                assert(r.drop_last() =~= prev);
                assert(spec_side_rows(r, et) =~= spec_side_rows(prev, et).push(s.last()));
                assert(spec_side_rows(prev, et).len() == m);
            }
        } else {
            let kept = if s.last().entry_type == et && s.last().price_level == Some(lvl) {
                false
            } else {
                true
            };
            assert(kept);
            if s.last().entry_type == et && s.last().price_level is Some
                && s.last().price_level->0 > lvl {
                assert(false);
            }
            assert(r == prev.push(s.last()));
            assert(r.drop_last() =~= prev);
            assert(spec_side_rows(r, et) =~= spec_side_rows(prev, et));
            if s.last().entry_type == other {
                assert(spec_side_rows(r, other) =~= spec_side_rows(prev, other).push(s.last()));
                assert(spec_side_rows(s, other) =~= spec_side_rows(pr, other).push(s.last()));
            } else {
                assert(spec_side_rows(r, other) =~= spec_side_rows(prev, other));
                assert(spec_side_rows(s, other) =~= spec_side_rows(pr, other));
            }
            assert(spec_side_rows(s, et) == spec_side_rows(pr, et));
        }
        if s.last().entry_type == et {
            assert(spec_side_rows(r, other) == spec_side_rows(prev, other)) by {
                if s.last().entry_type == et && s.last().price_level == Some(lvl) {
                    assert(r == prev);
                } else if s.last().entry_type == et && s.last().price_level is Some
                    && s.last().price_level->0 > lvl {
                    assert(r == prev.push(spec_dec_level(s.last())));
                    assert(r.drop_last() =~= prev);
                    assert(spec_dec_level(s.last()).entry_type == et);
                    assert(spec_side_rows(r, other) =~= spec_side_rows(prev, other));
                } else {
                    assert(r == prev.push(s.last()));
                    assert(r.drop_last() =~= prev);
                    assert(spec_side_rows(r, other) =~= spec_side_rows(prev, other));
                }
            }
            assert(spec_side_rows(s, other) == spec_side_rows(pr, other)) by {
                assert(spec_side_rows(s, other) =~= spec_side_rows(pr, other));
            }
        }
    }
}


/// Updating one row in place, without touching its side or rank, moves no
/// side's rows and no ranks.
proof fn lemma_update_same_rank(s: Seq<DepthEntry>, k: int, e2: DepthEntry, et: u32)
    requires
        0 <= k < s.len(),
        e2.entry_type == s[k].entry_type,
        e2.price_level == s[k].price_level,
    ensures
        spec_side_rows(s.update(k, e2), et).len() == spec_side_rows(s, et).len(),
        forall|i: int|
            0 <= i < spec_side_rows(s, et).len() ==> (#[trigger] spec_side_rows(
                s.update(k, e2),
                et,
            )[i]).price_level == spec_side_rows(s, et)[i].price_level,
        et != s[k].entry_type ==> spec_side_rows(s.update(k, e2), et) == spec_side_rows(s, et),
    decreases s.len(),
{
    let u = s.update(k, e2);
    if k == s.len() - 1 {
        assert(u.drop_last() =~= s.drop_last());
        if s.last().entry_type == et {
            assert(spec_side_rows(u, et) =~= spec_side_rows(s.drop_last(), et).push(u.last()));
            assert(spec_side_rows(s, et) =~= spec_side_rows(s.drop_last(), et).push(s.last()));
        } else {
            assert(spec_side_rows(u, et) =~= spec_side_rows(s.drop_last(), et));
            assert(spec_side_rows(s, et) =~= spec_side_rows(s.drop_last(), et));
        }
    } else {
        lemma_update_same_rank(s.drop_last(), k, e2, et);
        assert(u.drop_last() =~= s.drop_last().update(k, e2));
        assert(u.last() == s.last());
        if s.last().entry_type == et {
            assert(spec_side_rows(u, et) =~= spec_side_rows(s.drop_last().update(k, e2), et).push(
                s.last(),
            ));
            assert(spec_side_rows(s, et) =~= spec_side_rows(s.drop_last(), et).push(s.last()));
        } else {
            assert(spec_side_rows(u, et) =~= spec_side_rows(s.drop_last().update(k, e2), et));
            assert(spec_side_rows(s, et) =~= spec_side_rows(s.drop_last(), et));
        }
        if et != s[k].entry_type {
            assert(spec_side_rows(u, et) =~= spec_side_rows(s, et));
        }
    }
}

/// A Change that finds its row rewrites fields in place, never the row's
/// side or rank, so the book invariant survives and the other side stays
/// whole.
pub proof fn lemma_change_found_preserves_book(
    s: Seq<DepthEntry>,
    inc: DepthIncrement,
    lvl: u32,
    et: u32,
    other: u32,
)
    requires
        other != inc.entry_type,
        spec_wf_side(s, et),
        spec_find_level_from(s, inc.entry_type, lvl, 0) >= 0,
    ensures
        spec_wf_side(spec_change_depth(s, inc, lvl), et),
        spec_side_rows(spec_change_depth(s, inc, lvl), other) == spec_side_rows(s, other),
{
    let k = spec_find_level_from(s, inc.entry_type, lvl, 0);
    lemma_find_level_found(s, inc.entry_type, lvl, 0);
    let e2 = spec_change_fields(s[k], inc);
    lemma_update_same_rank(s, k, e2, et);
    lemma_update_same_rank(s, k, e2, other);
}

/// A found level index points at a row of the looked-up side and rank.
proof fn lemma_find_level_found(s: Seq<DepthEntry>, et: u32, lvl: u32, j: int)
    requires
        0 <= j <= s.len(),
    ensures
        spec_find_level_from(s, et, lvl, j) >= 0 ==> j <= spec_find_level_from(s, et, lvl, j)
            < s.len() && s[spec_find_level_from(s, et, lvl, j)].entry_type == et && s[
            spec_find_level_from(s, et, lvl, j)].price_level == Some(lvl),
    decreases s.len() - j,
{
    if j < s.len() {
        lemma_find_level_found(s, et, lvl, j + 1);
    }
}


/// On a book with no rows of the new row's side, the insertion scan never
/// stops, so the new row lands at the end.
proof fn lemma_scan_empty_side(s: Seq<DepthEntry>, new: DepthEntry, i: int)
    requires
        0 <= i <= s.len(),
        forall|j: int| 0 <= j < s.len() ==> (#[trigger] s[j]).entry_type != new.entry_type,
    ensures
        spec_new_depth_idx_from(s, new, i) == s.len(),
    decreases s.len() - i,
{
    if i < s.len() {
        assert(!spec_scan_stop(s, new, i));
        lemma_scan_empty_side(s, new, i + 1);
    }
}

/// A side with no rows has no rows anywhere in the array.
proof fn lemma_empty_side_no_rows(s: Seq<DepthEntry>, et: u32)
    requires
        spec_side_rows(s, et).len() == 0,
    ensures
        forall|j: int| 0 <= j < s.len() ==> (#[trigger] s[j]).entry_type != et,
    decreases s.len(),
{
    if s.len() > 0 {
        if s.last().entry_type == et {
            assert(spec_side_rows(s, et) == spec_side_rows(s.drop_last(), et).push(s.last()));
            assert(false);
        }
        assert(spec_side_rows(s, et) == spec_side_rows(s.drop_last(), et));
        lemma_empty_side_no_rows(s.drop_last(), et);
        assert forall|j: int| 0 <= j < s.len() implies (#[trigger] s[j]).entry_type != et by {
            if j < s.len() - 1 {
                assert(s.drop_last()[j] == s[j]);
                assert(s.drop_last()[j].entry_type != et);
            }
        }
    }
}

/// The round trip: an Add that carries no explicit rank — or rank one —
/// onto an empty side produces exactly one row of that side, ranked one
/// and carrying the added price and size; a Delete of rank one then
/// restores the empty side; and the other side's rows never move.
pub proof fn lemma_add_then_delete_round_trip(s: Seq<DepthEntry>, inc: DepthIncrement, other: u32)
    requires
        inc.entry_type < 2,
        other != inc.entry_type,
        inc.price_level is None || inc.price_level == Some(1u32),
        spec_side_rows(s, inc.entry_type).len() == 0,
        s.len() < 0xffff_fffd,
    ensures
        ({
            let s1 = spec_add_depth(s, inc);
            let s2 = spec_del_depth(s1, inc.entry_type, 1);
            &&& spec_side_rows(s1, inc.entry_type).len() == 1
            &&& spec_side_rows(s1, inc.entry_type)[0].price_level == Some(1u32)
            &&& spec_side_rows(s1, inc.entry_type)[0].price == inc.price
            &&& spec_side_rows(s1, inc.entry_type)[0].size == inc.size
            &&& spec_side_rows(s1, other) == spec_side_rows(s, other)
            &&& spec_side_rows(s2, inc.entry_type).len() == 0
            &&& spec_side_rows(s2, other) == spec_side_rows(s, other)
        }),
{
    let et = inc.entry_type;
    let new = spec_effective_entry(inc);
    assert(new.price_level == Some(1u32));
    lemma_empty_side_no_rows(s, et);
    lemma_scan_empty_side(s, new, 0);
    let s1 = spec_add_depth(s, inc);
    let ins = s.insert(s.len() as int, new);
    assert(ins =~= s.push(new));

    // The level shift after the insertion touches nothing: the new row is
    // at the end, and no other row is of its side.
    assert(s1 =~= s.push(new)) by {
        assert forall|j: int| 0 <= j < ins.len() implies #[trigger] s1[j] == ins[j] by {
            if j < s.len() {
                assert(ins[j] == s[j]);
                assert(s[j].entry_type != et);
            }
        }
    }

    assert(spec_side_rows(s1, et) =~= spec_side_rows(s, et).push(new)) by {
        assert(s1.drop_last() =~= s);
        assert(s1.last() == new);
    }
    assert(spec_side_rows(s1, other) =~= spec_side_rows(s, other)) by {
        assert(s1.drop_last() =~= s);
        assert(s1.last() == new);
    }

    assert(spec_wf_side(s1, et)) by {
        assert(spec_side_rows(s1, et).len() == 1);
        assert(spec_side_rows(s1, et)[0] == new);
    }
    lemma_del_preserves_book(s1, et, 1, other);
}


/// A found type index points at a row of the looked-up side.
proof fn lemma_find_type_found(s: Seq<DepthEntry>, et: u32, j: int)
    requires
        0 <= j <= s.len(),
    ensures
        spec_find_type_from(s, et, j) >= 0 ==> j <= spec_find_type_from(s, et, j) < s.len() && s[
            spec_find_type_from(s, et, j)].entry_type == et,
    decreases s.len() - j,
{
    if j < s.len() {
        lemma_find_type_found(s, et, j + 1);
    }
}

/// A found trade index points at a book-side row whose price matches.
proof fn lemma_find_trade_found(s: Seq<DepthEntry>, px: i64, j: int)
    requires
        0 <= j <= s.len(),
    ensures
        spec_find_trade_from(s, px, j) >= 0 ==> j <= spec_find_trade_from(s, px, j) < s.len() && s[
            spec_find_trade_from(s, px, j)].entry_type < 2 && s[spec_find_trade_from(
            s,
            px,
            j,
        )].price == Some(px),
    decreases s.len() - j,
{
    if j < s.len() {
        lemma_find_trade_found(s, px, j + 1);
    }
}

/// Removing a row of another side moves nothing on this side.
proof fn lemma_remove_nonside(s: Seq<DepthEntry>, k: int, et: u32)
    requires
        0 <= k < s.len(),
        s[k].entry_type != et,
    ensures
        spec_side_rows(s.remove(k), et) == spec_side_rows(s, et),
    decreases s.len(),
{
    let r = s.remove(k);
    if k == s.len() - 1 {
        assert(r =~= s.drop_last());
        assert(spec_side_rows(s, et) == spec_side_rows(s.drop_last(), et));
    } else {
        lemma_remove_nonside(s.drop_last(), k, et);
        assert(r.drop_last() =~= s.drop_last().remove(k));
        assert(r.last() == s.last());
        if s.last().entry_type == et {
            assert(spec_side_rows(r, et) =~= spec_side_rows(s.drop_last().remove(k), et).push(
                s.last(),
            ));
            assert(spec_side_rows(s, et) =~= spec_side_rows(s.drop_last(), et).push(s.last()));
        } else {
            assert(spec_side_rows(r, et) =~= spec_side_rows(s.drop_last().remove(k), et));
            assert(spec_side_rows(s, et) =~= spec_side_rows(s.drop_last(), et));
        }
    }
}

/// Inserting a row of another side moves nothing on this side.
proof fn lemma_insert_nonside(s: Seq<DepthEntry>, p: int, e: DepthEntry, et: u32)
    requires
        0 <= p <= s.len(),
        e.entry_type != et,
    ensures
        spec_side_rows(s.insert(p, e), et) == spec_side_rows(s, et),
    decreases s.len(),
{
    let u = s.insert(p, e);
    if p == s.len() {
        assert(u =~= s.push(e));
        assert(u.drop_last() =~= s);
        assert(spec_side_rows(u, et) == spec_side_rows(s, et));
    } else {
        lemma_insert_nonside(s.drop_last(), p, e, et);
        assert(u.drop_last() =~= s.drop_last().insert(p, e));
        assert(u.last() == s.last());
        if s.last().entry_type == et {
            assert(spec_side_rows(u, et) =~= spec_side_rows(s.drop_last().insert(p, e), et).push(
                s.last(),
            ));
            assert(spec_side_rows(s, et) =~= spec_side_rows(s.drop_last(), et).push(s.last()));
        } else {
            assert(spec_side_rows(u, et) =~= spec_side_rows(s.drop_last().insert(p, e), et));
            assert(spec_side_rows(s, et) =~= spec_side_rows(s.drop_last(), et));
        }
    }
}

/// Two arrays that agree on which rows belong to a side, and on those
/// rows' values, have the same side rows.
proof fn lemma_side_rows_congruent(a: Seq<DepthEntry>, b: Seq<DepthEntry>, et: u32)
    requires
        a.len() == b.len(),
        forall|j: int|
            0 <= j < a.len() ==> ((#[trigger] a[j]).entry_type == et) == ((
            #[trigger] b[j]).entry_type == et),
        forall|j: int| 0 <= j < a.len() && (#[trigger] a[j]).entry_type == et ==> a[j] == b[j],
    ensures
        spec_side_rows(a, et) == spec_side_rows(b, et),
    decreases a.len(),
{
    if a.len() > 0 {
        lemma_side_rows_congruent(a.drop_last(), b.drop_last(), et);
        if a.last().entry_type == et {
            assert(spec_side_rows(a, et) =~= spec_side_rows(a.drop_last(), et).push(a.last()));
            assert(spec_side_rows(b, et) =~= spec_side_rows(b.drop_last(), et).push(b.last()));
            assert(a.last() == b.last());
        } else {
            assert(spec_side_rows(a, et) =~= spec_side_rows(a.drop_last(), et));
            assert(spec_side_rows(b, et) =~= spec_side_rows(b.drop_last(), et));
        }
    }
}

/// Adding a non-side row — a trade report or a statistics row — never
/// moves a book side: its insertion point and its level shift touch only
/// rows of its own kind.
pub proof fn lemma_add_nonside_preserves_sides(s: Seq<DepthEntry>, inc: DepthIncrement, et: u32)
    requires
        inc.entry_type >= 2,
        et < 2,
    ensures
        spec_side_rows(spec_add_depth(s, inc), et) == spec_side_rows(s, et),
{
    let new = spec_effective_entry(inc);
    assert(new.entry_type == inc.entry_type);
    let k = spec_find_type_from(s, inc.entry_type, 0);
    lemma_find_type_found(s, inc.entry_type, 0);
    let s1 = if k >= 0 {
        s.remove(k)
    } else {
        s
    };
    if k >= 0 {
        lemma_remove_nonside(s, k, et);
    }
    let pos = if k >= 0 {
        k
    } else {
        0int
    };
    let s2 = s1.insert(pos, new);
    lemma_insert_nonside(s1, pos, new, et);
    if new.price_level is Some {
        let m = s2.map(
            |j: int, e: DepthEntry|
                if j > pos && e.entry_type == inc.entry_type && e.price_level is Some {
                    spec_bump_level(e)
                } else {
                    e
                },
        );
        lemma_side_rows_congruent(m, s2, et);
        assert(spec_add_depth(s, inc) == m);
    } else {
        assert(spec_add_depth(s, inc) == s2);
    }
}

/// A trade that only reduces a row's size — a partial fill — keeps both
/// book sides' ranks exactly as they were.
pub proof fn lemma_trade_partial_preserves_book(s: Seq<DepthEntry>, inc: DepthIncrement, et: u32)
    requires
        et < 2,
        inc.entry_type >= 2,
        inc.size is Some,
        inc.price is Some,
        spec_wf_side(s, et),
        spec_find_trade_from(s, inc.price->0, 0) >= 0,
        spec_opt_i64_gt(s[spec_find_trade_from(s, inc.price->0, 0)].size, Some(inc.size->0)),
    ensures
        spec_wf_side(spec_do_trade(s, inc), et),
{
    let k = spec_find_trade_from(s, inc.price->0, 0);
    lemma_find_trade_found(s, inc.price->0, 0);
    let e2 = DepthEntry { size: Some((s[k].size->0 - inc.size->0) as i64), ..s[k] };
    lemma_update_same_rank(s, k, e2, et);
    let reduced = s.update(k, e2);
    lemma_add_nonside_preserves_sides(reduced, inc, et);
    assert forall|i: int|
        0 <= i < spec_side_rows(spec_do_trade(s, inc), et).len() implies (
    #[trigger] spec_side_rows(spec_do_trade(s, inc), et)[i]).price_level == Some(
        (i + 1) as u32,
    ) by {
        assert(spec_side_rows(spec_do_trade(s, inc), et)[i].price_level == spec_side_rows(
            s,
            et,
        )[i].price_level);
    }
}


/// Rows of a side before array position `k`.
pub open spec fn spec_count_side(s: Seq<DepthEntry>, et: u32) -> int
    decreases s.len(),
{
    if s.len() == 0 {
        0
    } else {
        spec_count_side(s.drop_last(), et) + if s.last().entry_type == et {
            1int
        } else {
            0int
        }
    }
}

proof fn lemma_count_side_is_len(s: Seq<DepthEntry>, et: u32)
    ensures
        spec_count_side(s, et) == spec_side_rows(s, et).len(),
    decreases s.len(),
{
    if s.len() > 0 {
        lemma_count_side_is_len(s.drop_last(), et);
    }
}

/// Removing the side row at array position `k` removes exactly its entry
/// from the side's rows, at the side position counted before it.
proof fn lemma_remove_side_row(s: Seq<DepthEntry>, k: int, et: u32)
    requires
        0 <= k < s.len(),
        s[k].entry_type == et,
    ensures
        ({
            let cnt = spec_count_side(s.take(k), et);
            &&& 0 <= cnt < spec_side_rows(s, et).len()
            &&& spec_side_rows(s, et)[cnt] == s[k]
            &&& spec_side_rows(s.remove(k), et) == spec_side_rows(s, et).remove(cnt)
        }),
    decreases s.len(),
{
    let cnt = spec_count_side(s.take(k), et);
    let r = s.remove(k);
    if k == s.len() - 1 {
        assert(s.take(k) =~= s.drop_last());
        lemma_count_side_is_len(s.drop_last(), et);
        assert(spec_side_rows(s, et) =~= spec_side_rows(s.drop_last(), et).push(s[k]));
        assert(r =~= s.drop_last());
        assert(spec_side_rows(s, et).remove(cnt) =~= spec_side_rows(s.drop_last(), et));
    } else {
        lemma_remove_side_row(s.drop_last(), k, et);
        lemma_count_side_is_len(s.drop_last(), et);
        assert(s.drop_last().take(k) =~= s.take(k));
        assert(s.drop_last()[k] == s[k]);
        let prevside = spec_side_rows(s.drop_last(), et);
        assert(r.drop_last() =~= s.drop_last().remove(k));
        assert(r.last() == s.last());
        if s.last().entry_type == et {
            assert(spec_side_rows(s, et) =~= prevside.push(s.last()));
            assert(spec_side_rows(r, et) =~= prevside.remove(cnt).push(s.last()));
            assert(cnt < prevside.len());
            assert(spec_side_rows(s, et).remove(cnt) =~= prevside.remove(cnt).push(s.last()));
            assert(spec_side_rows(s, et)[cnt] == prevside[cnt]);
        } else {
            assert(spec_side_rows(s, et) =~= prevside);
            assert(spec_side_rows(r, et) =~= prevside.remove(cnt));
        }
    }
}

/// Closing a side up after a removal rewrites each of the side's rows in
/// place: a row ranked deeper than the consumed rank moves one up, any
/// other row stays; the other side never moves.
proof fn lemma_dec_deeper_side_rows(s: Seq<DepthEntry>, et: u32, rl: Option<u32>, other: u32)
    requires
        other != et,
    ensures
        spec_side_rows(spec_dec_deeper(s, et, rl), et).len() == spec_side_rows(s, et).len(),
        forall|i: int|
            0 <= i < spec_side_rows(s, et).len() ==> #[trigger] spec_side_rows(
                spec_dec_deeper(s, et, rl),
                et,
            )[i] == (if spec_side_rows(s, et)[i].price_level is Some && rl is Some
                && spec_side_rows(s, et)[i].price_level->0 > rl->0 {
                spec_dec_level(spec_side_rows(s, et)[i])
            } else {
                spec_side_rows(s, et)[i]
            }),
        spec_side_rows(spec_dec_deeper(s, et, rl), other) == spec_side_rows(s, other),
    decreases s.len(),
{
    if s.len() > 0 {
        lemma_dec_deeper_side_rows(s.drop_last(), et, rl, other);
        let m = spec_dec_deeper(s, et, rl);
        let prev = spec_dec_deeper(s.drop_last(), et, rl);
        assert forall|j: int| 0 <= j < s.len() - 1 implies m[j] == prev[j] by {}
        assert(m.drop_last() =~= prev);
        if s.last().entry_type == et {
            assert(spec_side_rows(m, et) =~= spec_side_rows(prev, et).push(m.last()));
            assert(spec_side_rows(s, et) =~= spec_side_rows(s.drop_last(), et).push(s.last()));
            assert(spec_side_rows(m, other) =~= spec_side_rows(prev, other));
            assert(spec_side_rows(s, other) =~= spec_side_rows(s.drop_last(), other));
        } else {
            assert(spec_side_rows(m, et) =~= spec_side_rows(prev, et));
            assert(spec_side_rows(s, et) =~= spec_side_rows(s.drop_last(), et));
            if s.last().entry_type == other {
                assert(m.last() == s.last());
                assert(spec_side_rows(m, other) =~= spec_side_rows(prev, other).push(s.last()));
                assert(spec_side_rows(s, other) =~= spec_side_rows(s.drop_last(), other).push(
                    s.last(),
                ));
            } else {
                assert(spec_side_rows(m, other) =~= spec_side_rows(prev, other));
                assert(spec_side_rows(s, other) =~= spec_side_rows(s.drop_last(), other));
            }
        }
    }
}

/// A trade that consumes its whole row removes it and closes the side up,
/// so the side's ranks stay a gapless range from one; the other side and
/// the sides untouched by the trade report never move.
pub proof fn lemma_trade_consume_preserves_book(s: Seq<DepthEntry>, inc: DepthIncrement, other: u32)
    requires
        inc.entry_type >= 2,
        inc.size is Some,
        inc.price is Some,
        other < 2,
        spec_wf_side(s, ENTRY_BID),
        spec_wf_side(s, ENTRY_ASK),
        spec_find_trade_from(s, inc.price->0, 0) >= 0,
        !spec_opt_i64_gt(s[spec_find_trade_from(s, inc.price->0, 0)].size, Some(inc.size->0)),
        s.len() < 0xffff_fffe,
    ensures
        spec_wf_side(spec_do_trade(s, inc), other),
{
    let k = spec_find_trade_from(s, inc.price->0, 0);
    lemma_find_trade_found(s, inc.price->0, 0);
    let et = s[k].entry_type;
    let rm = s.remove(k);
    let dec = spec_dec_deeper(rm, et, s[k].price_level);
    lemma_add_nonside_preserves_sides(dec, inc, other);
    if other == et {
        lemma_remove_side_row(s, k, et);
        lemma_count_side_is_len(s.take(k), et);
        let cnt = spec_count_side(s.take(k), et);
        assert(s[k].price_level == Some((cnt + 1) as u32)) by {
            assert(spec_side_rows(s, et)[cnt] == s[k]);
            lemma_side_rows_len(s, et);
        }
        lemma_dec_deeper_side_rows(rm, et, s[k].price_level, (1 - et) as u32);
        assert forall|i: int|
            0 <= i < spec_side_rows(dec, et).len() implies (#[trigger] spec_side_rows(
            dec,
            et,
        )[i]).price_level == Some((i + 1) as u32) by {
            assert(spec_side_rows(rm, et) == spec_side_rows(s, et).remove(cnt));
            lemma_side_rows_len(s, et);
            if i < cnt {
                assert(spec_side_rows(rm, et)[i] == spec_side_rows(s, et)[i]);
                assert(spec_side_rows(s, et)[i].price_level == Some((i + 1) as u32));
            } else {
                assert(spec_side_rows(rm, et)[i] == spec_side_rows(s, et)[i + 1]);
                assert(spec_side_rows(s, et)[i + 1].price_level == Some((i + 2) as u32));
            }
        }
    } else {
        // The consumed row is on the opposite side: `other`'s rows never
        // move at all.
        lemma_remove_nonside(s, k, other);
        lemma_dec_deeper_side_rows(rm, et, s[k].price_level, other);
        assert(spec_side_rows(dec, other) == spec_side_rows(s, other));
    }
}

} // verus!

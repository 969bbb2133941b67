//! Tables of rows, and the queries that every table answers: look a live
//! row up, test a name or an id for use, and list the live children of a
//! parent one page at a time.

use crate::error::Uuid;
use crate::model::{Identity, Resource};
use crate::names::{
    lemma_name_lt_asymmetric, lemma_name_lt_irreflexive, lemma_name_lt_total,
    lemma_name_lt_transitive, name_lt, str_eq, str_lt,
};
use vstd::prelude::*;

verus! {

/// The direction in which a page walks its key.
#[derive(Clone, Copy, Debug, PartialEq, Eq, Structural)]
pub enum PaginationOrder {
    Ascending,
    Descending,
}

/// One page of a listing: where it starts, which way it goes, and how many
/// rows it holds at most.
#[derive(Clone, Debug, PartialEq, Eq)]
pub struct DataPageParams<K> {
    /// The key of the last row of the page before, if there was one.
    pub marker: Option<K>,
    pub direction: PaginationOrder,
    pub limit: u32,
}

/// A page of a listing, keyed by id or by name.
#[derive(Clone, Debug, PartialEq, Eq)]
pub enum PaginatedBy {
    Id(DataPageParams<Uuid>),
    Name(DataPageParams<String>),
}

impl PaginatedBy {
    /// The greatest number of rows on the page.
    pub open spec fn limit(&self) -> nat {
        match self {
            PaginatedBy::Id(page) => page.limit as nat,
            PaginatedBy::Name(page) => page.limit as nat,
        }
    }

    /// Whether the page walks its key upwards.
    pub open spec fn ascending(&self) -> bool {
        match self {
            PaginatedBy::Id(page) => page.direction is Ascending,
            PaginatedBy::Name(page) => page.direction is Ascending,
        }
    }

    /// The order of the key: by id; or by name, rows of one name by id.
    pub open spec fn key_lt(&self, a: Identity, b: Identity) -> bool {
        match self {
            PaginatedBy::Id(_) => a.id < b.id,
            PaginatedBy::Name(_) => name_lt(a.name@, b.name@) || (a.name@ == b.name@ && a.id
                < b.id),
        }
    }

    /// Whether `a` comes before `b` on the page.
    pub open spec fn precedes(&self, a: Identity, b: Identity) -> bool {
        if self.ascending() {
            self.key_lt(a, b)
        } else {
            self.key_lt(b, a)
        }
    }

    /// Whether a row lies beyond the marker, in the direction of the page.
    pub open spec fn admits(&self, row: Identity) -> bool {
        match self {
            PaginatedBy::Id(page) => match page.marker {
                None => true,
                Some(marker) => if page.direction is Ascending {
                    marker < row.id
                } else {
                    row.id < marker
                },
            },
            PaginatedBy::Name(page) => match page.marker {
                None => true,
                Some(marker) => if page.direction is Ascending {
                    name_lt(marker@, row.name@)
                } else {
                    name_lt(row.name@, marker@)
                },
            },
        }
    }

    fn max_rows(&self) -> (res: usize)
        ensures
            res == self.limit(),
    {
        match self {
            PaginatedBy::Id(page) => page.limit as usize,
            PaginatedBy::Name(page) => page.limit as usize,
        }
    }

    fn key_before(&self, a: &Identity, b: &Identity) -> (res: bool)
        ensures
            res == self.key_lt(*a, *b),
    {
        match self {
            PaginatedBy::Id(_) => a.id < b.id,
            PaginatedBy::Name(_) => {
                if str_lt(a.name.as_str(), b.name.as_str()) {
                    true
                } else {
                    str_eq(a.name.as_str(), b.name.as_str()) && a.id < b.id
                }
            },
        }
    }

    fn comes_before(&self, a: &Identity, b: &Identity) -> (res: bool)
        ensures
            res == self.precedes(*a, *b),
    {
        let ascending = match self {
            PaginatedBy::Id(page) => matches!(page.direction, PaginationOrder::Ascending),
            PaginatedBy::Name(page) => matches!(page.direction, PaginationOrder::Ascending),
        };
        if ascending {
            self.key_before(a, b)
        } else {
            self.key_before(b, a)
        }
    }

    fn beyond_marker(&self, row: &Identity) -> (res: bool)
        ensures
            res == self.admits(*row),
    {
        match self {
            PaginatedBy::Id(page) => match page.marker {
                None => true,
                Some(marker) => match page.direction {
                    PaginationOrder::Ascending => marker < row.id,
                    PaginationOrder::Descending => row.id < marker,
                },
            },
            PaginatedBy::Name(page) => match &page.marker {
                None => true,
                Some(marker) => match page.direction {
                    PaginationOrder::Ascending => str_lt(marker.as_str(), row.name.as_str()),
                    PaginationOrder::Descending => str_lt(row.name.as_str(), marker.as_str()),
                },
            },
        }
    }

    /// Page order is transitive.
    pub proof fn lemma_precedes_transitive(&self, a: Identity, b: Identity, c: Identity)
        requires
            self.precedes(a, b),
            self.precedes(b, c),
        ensures
            self.precedes(a, c),
    {
        if self is Name {
            let (x, y, z) = if self.ascending() {
                (a, b, c)
            } else {
                (c, b, a)
            };
            if name_lt(x.name@, y.name@) && name_lt(y.name@, z.name@) {
                lemma_name_lt_transitive(x.name@, y.name@, z.name@);
            }
        }
    }

    /// No row comes before itself.
    pub proof fn lemma_precedes_irreflexive(&self, a: Identity)
        ensures
            !self.precedes(a, a),
    {
        lemma_name_lt_irreflexive(a.name@);
    }

    /// Of two rows with different ids, one comes before the other.
    pub proof fn lemma_precedes_total(&self, a: Identity, b: Identity)
        requires
            a.id != b.id,
        ensures
            self.precedes(a, b) || self.precedes(b, a),
    {
        lemma_name_lt_total(a.name@, b.name@);
    }

    /// Of two rows, at most one comes before the other.
    pub proof fn lemma_precedes_asymmetric(&self, a: Identity, b: Identity)
        requires
            self.precedes(a, b),
        ensures
            !self.precedes(b, a),
    {
        if self is Name {
            if name_lt(a.name@, b.name@) {
                lemma_name_lt_asymmetric(a.name@, b.name@);
            }
            if name_lt(b.name@, a.name@) {
                lemma_name_lt_asymmetric(b.name@, a.name@);
            }
        }
    }
}

/// No two rows of the table have the same id, deleted rows included.
pub open spec fn ids_unique<T: Resource>(table: Seq<T>) -> bool {
    forall|i: int, j: int|
        0 <= i < j < table.len() ==> (#[trigger] table[i]).identity_of().id != (
        #[trigger] table[j]).identity_of().id
}

/// No two live children of one parent have the same name.
pub open spec fn names_unique<T: Resource>(table: Seq<T>) -> bool {
    forall|i: int, j: int|
        0 <= i < j < table.len() && live_child(#[trigger] table[i], table[j].parent_of())
            && (#[trigger] table[j]).identity_of().live() ==> table[i].identity_of().name@
            != table[j].identity_of().name@
}

/// The row is live and a child of the parent.
pub open spec fn live_child<T: Resource>(row: T, parent: Uuid) -> bool {
    row.identity_of().live() && row.parent_of() == parent
}

/// The row is live and has the id.
pub open spec fn live_with_id<T: Resource>(row: T, id: Uuid) -> bool {
    row.identity_of().live() && row.identity_of().id == id
}

/// Some live row of the table has the id.
pub open spec fn has_live<T: Resource>(table: Seq<T>, id: Uuid) -> bool {
    exists|j: int| 0 <= j < table.len() && live_with_id(#[trigger] table[j], id)
}

/// Some row of the table, live or deleted, has the id.
pub open spec fn id_in_use<T: Resource>(table: Seq<T>, id: Uuid) -> bool {
    exists|j: int| 0 <= j < table.len() && (#[trigger] table[j]).identity_of().id == id
}

/// Some live child of the parent has the name.
pub open spec fn name_in_use<T: Resource>(table: Seq<T>, parent: Uuid, name: Seq<char>) -> bool {
    exists|j: int|
        0 <= j < table.len() && live_child(#[trigger] table[j], parent)
            && table[j].identity_of().name@ == name
}

/// Some live child of the parent other than the row with the id has the
/// name.
pub open spec fn name_in_use_by_other<T: Resource>(
    table: Seq<T>,
    parent: Uuid,
    name: Seq<char>,
    id: Uuid,
) -> bool {
    exists|j: int|
        0 <= j < table.len() && live_child(#[trigger] table[j], parent)
            && table[j].identity_of().name@ == name && table[j].identity_of().id != id
}

/// The parent has a live child.
pub open spec fn has_live_child<T: Resource>(table: Seq<T>, parent: Uuid) -> bool {
    exists|j: int| 0 <= j < table.len() && live_child(#[trigger] table[j], parent)
}

/// The position of the first live row with the id.
pub open spec fn first_live<T: Resource>(table: Seq<T>, id: Uuid, at: int) -> bool {
    &&& 0 <= at < table.len()
    &&& live_with_id(table[at], id)
    &&& forall|j: int| 0 <= j < at ==> !live_with_id(#[trigger] table[j], id)
}

/// The position of the first live row with the id, if there is one.
pub open spec fn live_index<T: Resource>(table: Seq<T>, id: Uuid) -> int {
    choose|at: int| first_live(table, id, at)
}

/// The first live row with an id is at one position only.
pub proof fn lemma_live_index<T: Resource>(table: Seq<T>, id: Uuid, at: int)
    requires
        first_live(table, id, at),
    ensures
        live_index(table, id) == at,
        has_live(table, id),
{
    let other = live_index(table, id);
    assert(first_live(table, id, other));
    if other < at {
        assert(!live_with_id(table[other], id));
    } else if at < other {
        assert(!live_with_id(table[at], id));
    }
}

/// Among the live rows with an id there is a first.
pub proof fn lemma_first_live_exists<T: Resource>(table: Seq<T>, id: Uuid)
    requires
        has_live(table, id),
    ensures
        first_live(table, id, live_index(table, id)),
{
    let j = choose|j: int| 0 <= j < table.len() && live_with_id(#[trigger] table[j], id);
    lemma_least_live(table, id, j);
}

proof fn lemma_least_live<T: Resource>(table: Seq<T>, id: Uuid, j: int)
    requires
        0 <= j < table.len(),
        live_with_id(table[j], id),
    ensures
        exists|at: int| first_live(table, id, at),
    decreases j,
{
    if exists|k: int| 0 <= k < j && live_with_id(#[trigger] table[k], id) {
        let k = choose|k: int| 0 <= k < j && live_with_id(#[trigger] table[k], id);
        lemma_least_live(table, id, k);
    } else {
        assert(first_live(table, id, j));
    }
}

/// Looks the live row with the id up.
#[verifier::loop_isolation(false)]
pub fn find_live<T: Resource>(table: &Vec<T>, id: Uuid) -> (res: Option<usize>)
    ensures
        res is Some <==> has_live(table@, id),
        res matches Some(at) ==> first_live(table@, id, at as int) && at == live_index(table@, id),
{
    let mut i: usize = 0;
    while i < table.len()
        invariant
            i <= table.len(),
            forall|j: int| 0 <= j < i ==> !live_with_id(#[trigger] table@[j], id),
        decreases table.len() - i,
    {
        let ident = table[i].identity();
        if ident.time_deleted.is_none() && ident.id == id {
            proof {
                lemma_live_index(table@, id, i as int);
            }
            return Some(i);
        }
        i += 1;
    }
    None
}

/// Whether some row of the table, live or deleted, has the id.
#[verifier::loop_isolation(false)]
pub fn is_id_in_use<T: Resource>(table: &Vec<T>, id: Uuid) -> (res: bool)
    ensures
        res == id_in_use(table@, id),
{
    let mut i: usize = 0;
    while i < table.len()
        invariant
            i <= table.len(),
            forall|j: int| 0 <= j < i ==> (#[trigger] table@[j]).identity_of().id != id,
        decreases table.len() - i,
    {
        if table[i].identity().id == id {
            return true;
        }
        i += 1;
    }
    false
}

/// Whether some live child of the parent, other than the row with the id
/// `except` if one is given, has the name.
#[verifier::loop_isolation(false)]
pub fn is_name_in_use<T: Resource>(
    table: &Vec<T>,
    parent: Uuid,
    name: &str,
    except: Option<Uuid>,
) -> (res: bool)
    ensures
        except is None ==> res == name_in_use(table@, parent, name@),
        except matches Some(id) ==> res == name_in_use_by_other(table@, parent, name@, id),
{
    let mut i: usize = 0;
    while i < table.len()
        invariant
            i <= table.len(),
            forall|j: int|
                0 <= j < i ==> !(live_child(#[trigger] table@[j], parent)
                    && table@[j].identity_of().name@ == name@ && (except matches Some(id)
                    ==> table@[j].identity_of().id != id)),
        decreases table.len() - i,
    {
        let row = &table[i];
        let ident = row.identity();
        let other = match except {
            Some(id) => ident.id != id,
            None => true,
        };
        if other && ident.time_deleted.is_none() && row.parent_id() == parent && str_eq(
            ident.name.as_str(),
            name,
        ) {
            return true;
        }
        i += 1;
    }
    false
}

/// Whether the parent has a live child.
#[verifier::loop_isolation(false)]
pub fn any_live_child<T: Resource>(table: &Vec<T>, parent: Uuid) -> (res: bool)
    ensures
        res == has_live_child(table@, parent),
{
    let mut i: usize = 0;
    while i < table.len()
        invariant
            i <= table.len(),
            forall|j: int| 0 <= j < i ==> !live_child(#[trigger] table@[j], parent),
        decreases table.len() - i,
    {
        let row = &table[i];
        if row.identity().time_deleted.is_none() && row.parent_id() == parent {
            return true;
        }
        i += 1;
    }
    false
}

/// The row is one that the page may hold: a live child of the parent,
/// beyond the marker.
pub open spec fn on_listing<T: Resource>(row: T, parent: Uuid, by: PaginatedBy) -> bool {
    live_child(row, parent) && by.admits(row.identity_of())
}

/// Some row of the page has the value of the given row.
pub open spec fn page_holds<T: Resource>(page: Seq<T>, row: T) -> bool {
    exists|i: int| 0 <= i < page.len() && (#[trigger] page[i])@ == row@
}

/// `page` is the page of at most `limit` rows that `by` asks for of the
/// live children of `parent`: its rows are rows of the listing, in page
/// order, and a row of the listing that is missing comes after a full page.
pub open spec fn is_page_of<T: Resource>(
    table: Seq<T>,
    parent: Uuid,
    by: PaginatedBy,
    limit: nat,
    page: Seq<T>,
) -> bool {
    &&& page.len() <= limit
    &&& forall|i: int|
        0 <= i < page.len() ==> exists|j: int|
            0 <= j < table.len() && (#[trigger] page[i])@ == (#[trigger] table[j])@ && on_listing(
                table[j],
                parent,
                by,
            )
    &&& forall|i: int, k: int|
        0 <= i < k < page.len() ==> by.precedes(
            (#[trigger] page[i]).identity_of(),
            (#[trigger] page[k]).identity_of(),
        )
    &&& forall|j: int|
        0 <= j < table.len() && on_listing(#[trigger] table[j], parent, by) && !page_holds(
            page,
            table[j],
        ) ==> page.len() == limit && (page.len() > 0 ==> by.precedes(
            page.last().identity_of(),
            table[j].identity_of(),
        ))
}

/// `page` is the page that `by` asks for of the live children of `parent`.
pub open spec fn is_page<T: Resource>(table: Seq<T>, parent: Uuid, by: PaginatedBy, page: Seq<T>)
    -> bool {
    is_page_of(table, parent, by, by.limit(), page)
}

/// `rows` are all the live children of `parent` that lie beyond the marker
/// of `by`, in the order of `by`.
pub open spec fn is_listing<T: Resource>(
    table: Seq<T>,
    parent: Uuid,
    by: PaginatedBy,
    rows: Seq<T>,
) -> bool {
    &&& forall|i: int|
        0 <= i < rows.len() ==> exists|j: int|
            0 <= j < table.len() && (#[trigger] rows[i])@ == (#[trigger] table[j])@ && on_listing(
                table[j],
                parent,
                by,
            )
    &&& forall|i: int, k: int|
        0 <= i < k < rows.len() ==> by.precedes(
            (#[trigger] rows[i]).identity_of(),
            (#[trigger] rows[k]).identity_of(),
        )
    &&& forall|j: int|
        0 <= j < table.len() && on_listing(#[trigger] table[j], parent, by) ==> page_holds(
            rows,
            table[j],
        )
}

/// `sel` are the positions in the table of the rows of `page`.
pub open spec fn selects<T: Resource>(
    table: Seq<T>,
    parent: Uuid,
    by: PaginatedBy,
    sel: Seq<int>,
    page: Seq<T>,
) -> bool {
    &&& sel.len() == page.len()
    &&& forall|i: int|
        0 <= i < sel.len() ==> 0 <= #[trigger] sel[i] < table.len() && page[i]@
            == table[sel[i]]@ && on_listing(table[sel[i]], parent, by)
    &&& forall|i: int, k: int|
        0 <= i < k < sel.len() ==> by.precedes(
            table[#[trigger] sel[i]].identity_of(),
            table[#[trigger] sel[k]].identity_of(),
        )
}

/// The row at `j` may follow the row at `after` on the page.
pub open spec fn eligible<T: Resource>(
    table: Seq<T>,
    parent: Uuid,
    by: PaginatedBy,
    after: Option<usize>,
    j: int,
) -> bool {
    &&& 0 <= j < table.len()
    &&& on_listing(table[j], parent, by)
    &&& after matches Some(a) ==> by.precedes(
        table[a as int].identity_of(),
        table[j].identity_of(),
    )
}

/// The position of the row that follows the row at `after` on the page, or
/// of the first row of the page when `after` is unset.
#[verifier::loop_isolation(false)]
fn select_next<T: Resource>(table: &Vec<T>, parent: Uuid, by: &PaginatedBy, after: Option<usize>)
    -> (res: Option<usize>)
    requires
        after matches Some(a) ==> a < table.len(),
    ensures
        res is None ==> forall|j: int| !eligible(table@, parent, *by, after, j),
        res matches Some(m) ==> eligible(table@, parent, *by, after, m as int) && forall|j: int|
            eligible(table@, parent, *by, after, j) ==> !by.precedes(
                (#[trigger] table@[j]).identity_of(),
                table@[m as int].identity_of(),
            ),
{
    let mut best: Option<usize> = None;
    let mut i: usize = 0;
    while i < table.len()
        invariant
            i <= table.len(),
            best is None ==> forall|j: int|
                0 <= j < i ==> !eligible(table@, parent, *by, after, j),
            best matches Some(m) ==> m < i && eligible(table@, parent, *by, after, m as int)
                && forall|j: int|
                0 <= j < i && eligible(table@, parent, *by, after, j) ==> !by.precedes(
                    (#[trigger] table@[j]).identity_of(),
                    table@[m as int].identity_of(),
                ),
        decreases table.len() - i,
    {
        let row = &table[i];
        let ident = row.identity();
        let mut candidate = ident.time_deleted.is_none() && row.parent_id() == parent
            && by.beyond_marker(ident);
        if candidate {
            if let Some(a) = after {
                candidate = by.comes_before(table[a].identity(), ident);
            }
        }
        assert(candidate == eligible(table@, parent, *by, after, i as int));
        if candidate {
            let better = match best {
                None => true,
                Some(m) => by.comes_before(ident, table[m].identity()),
            };
            if better {
                proof {
                    by.lemma_precedes_irreflexive(table@[i as int].identity_of());
                    if let Some(m) = best {
                        assert forall|j: int|
                            0 <= j < i && eligible(
                                table@,
                                parent,
                                *by,
                                after,
                                j,
                            ) implies !by.precedes(
                            (#[trigger] table@[j]).identity_of(),
                            table@[i as int].identity_of(),
                        ) by {
                            if by.precedes(
                                table@[j].identity_of(),
                                table@[i as int].identity_of(),
                            ) {
                                by.lemma_precedes_transitive(
                                    table@[j].identity_of(),
                                    table@[i as int].identity_of(),
                                    table@[m as int].identity_of(),
                                );
                            }
                        }
                    }
                }
                best = Some(i);
            }
        }
        i += 1;
    }
    best
}

/// The first `limit` live children of a parent beyond the marker, in page
/// order, with their positions in the table.
#[verifier::loop_isolation(false)]
fn select_page<T: Resource>(table: &Vec<T>, parent: Uuid, by: &PaginatedBy, limit: usize) -> (res:
    (Vec<T>, Ghost<Seq<int>>))
    requires
        ids_unique(table@),
    ensures
        res.0@.len() <= limit,
        selects(table@, parent, *by, res.1@, res.0@),
        forall|j: int|
            0 <= j < table@.len() && on_listing(#[trigger] table@[j], parent, *by)
                && !res.1@.contains(j) ==> res.0@.len() == limit && (res.0@.len() > 0
                ==> by.precedes(table@[res.1@.last()].identity_of(), table@[j].identity_of())),
{
    let mut res: Vec<T> = Vec::new();
    let mut last: Option<usize> = None;
    let ghost mut sel: Seq<int> = Seq::empty();
    let mut done = false;
    while !done && res.len() < limit
        invariant
            res.len() <= limit,
            selects(table@, parent, *by, sel, res@),
            sel.len() == 0 ==> last is None,
            sel.len() > 0 ==> last == Some(sel.last() as usize),
            sel.len() > 0 ==> forall|j: int|
                0 <= j < table.len() && on_listing(#[trigger] table@[j], parent, *by)
                    && !by.precedes(table@[sel.last()].identity_of(), table@[j].identity_of())
                    ==> sel.contains(j),
            done ==> forall|j: int|
                0 <= j < table.len() && on_listing(#[trigger] table@[j], parent, *by)
                    ==> sel.contains(j),
        decreases
                (if done {
                    0int
                } else {
                    1int
                }),
                limit - res.len(),
    {
        let next = select_next(table, parent, by, last);
        match next {
            None => {
                proof {
                    assert forall|j: int|
                        0 <= j < table.len() && on_listing(
                            #[trigger] table@[j],
                            parent,
                            *by,
                        ) implies sel.contains(j) by {
                        assert(!eligible(table@, parent, *by, last, j));
                    }
                }
                done = true;
            },
            Some(m) => {
                let row = table[m].duplicate();
                proof {
                    let ghost old_sel = sel;
                    let new_sel = sel.push(m as int);
                    assert forall|i: int, k: int| 0 <= i < k < new_sel.len() implies by.precedes(
                        table@[#[trigger] new_sel[i]].identity_of(),
                        table@[#[trigger] new_sel[k]].identity_of(),
                    ) by {
                        if k == old_sel.len() && i < old_sel.len() - 1 {
                            by.lemma_precedes_transitive(
                                table@[old_sel[i]].identity_of(),
                                table@[old_sel.last()].identity_of(),
                                table@[m as int].identity_of(),
                            );
                        }
                    }
                    assert forall|j: int|
                        0 <= j < table.len() && on_listing(#[trigger] table@[j], parent, *by)
                            && !by.precedes(
                            table@[m as int].identity_of(),
                            table@[j].identity_of(),
                        ) implies new_sel.contains(j) by {
                        if j == m {
                            assert(new_sel[old_sel.len() as int] == j);
                        } else {
                            if j < m {
                                assert(table@[j].identity_of().id != table@[m as int].identity_of().id);
                            } else {
                                assert(table@[m as int].identity_of().id != table@[j].identity_of().id);
                            }
                            by.lemma_precedes_total(
                                table@[j].identity_of(),
                                table@[m as int].identity_of(),
                            );
                            assert(by.precedes(
                                table@[j].identity_of(),
                                table@[m as int].identity_of(),
                            ));
                            assert(!eligible(table@, parent, *by, last, j));
                            assert(old_sel.len() > 0);
                            assert(old_sel.contains(j));
                            let w = choose|w: int| 0 <= w < old_sel.len() && old_sel[w] == j;
                            assert(new_sel[w] == j);
                        }
                    }
                    sel = new_sel;
                }
                res.push(row);
                last = Some(m);
            },
        }
    }
    (res, Ghost(sel))
}

/// What the positions say of a page, they say of its rows.
proof fn lemma_selected_rows<T: Resource>(
    table: Seq<T>,
    parent: Uuid,
    by: PaginatedBy,
    sel: Seq<int>,
    page: Seq<T>,
)
    requires
        selects(table, parent, by, sel, page),
    ensures
        forall|i: int|
            0 <= i < page.len() ==> exists|j: int|
                0 <= j < table.len() && (#[trigger] page[i])@ == (#[trigger] table[j])@
                    && on_listing(table[j], parent, by),
        forall|i: int, k: int|
            0 <= i < k < page.len() ==> by.precedes(
                (#[trigger] page[i]).identity_of(),
                (#[trigger] page[k]).identity_of(),
            ),
        forall|j: int| sel.contains(j) && 0 <= j < table.len() ==> page_holds(page, #[trigger] table[j]),
        page.len() > 0 ==> page.last().identity_of() == table[sel.last()].identity_of(),
        sel.no_duplicates(),
{
    assert forall|i: int| 0 <= i < page.len() implies exists|j: int|
        0 <= j < table.len() && (#[trigger] page[i])@ == (#[trigger] table[j])@ && on_listing(
            table[j],
            parent,
            by,
        ) by {
        assert(page[i]@ == table[sel[i]]@);
    }
    assert forall|i: int, k: int| 0 <= i < k < page.len() implies by.precedes(
        (#[trigger] page[i]).identity_of(),
        (#[trigger] page[k]).identity_of(),
    ) by {
        T::lemma_view_has_identity(&page[i], &table[sel[i]]);
        T::lemma_view_has_identity(&page[k], &table[sel[k]]);
    }
    assert forall|j: int| sel.contains(j) && 0 <= j < table.len() implies page_holds(
        page,
        #[trigger] table[j],
    ) by {
        let w = choose|w: int| 0 <= w < sel.len() && sel[w] == j;
        assert(page[w]@ == table[j]@);
    }
    if page.len() > 0 {
        T::lemma_view_has_identity(&page.last(), &table[sel.last()]);
    }
    assert forall|i: int, k: int| 0 <= i < sel.len() && 0 <= k < sel.len() && i != k implies sel[i]
        != sel[k] by {
        by.lemma_precedes_irreflexive(table[sel[i]].identity_of());
    }
}

/// Lists the live children of a parent, one page at a time.
pub fn list_children<T: Resource>(table: &Vec<T>, parent: Uuid, by: &PaginatedBy) -> (res: Vec<T>)
    requires
        ids_unique(table@),
    ensures
        is_page(table@, parent, *by, res@),
{
    let limit = by.max_rows();
    let (res, Ghost(sel)) = select_page(table, parent, by, limit);
    proof {
        lemma_selected_rows(table@, parent, *by, sel, res@);
    }
    res
}

/// Lists all the live children of a parent that lie beyond the marker of
/// `by`, in the order of `by`; the limit of `by` is not applied.
pub fn list_all_children<T: Resource>(table: &Vec<T>, parent: Uuid, by: &PaginatedBy) -> (res: Vec<
    T,
>)
    requires
        ids_unique(table@),
    ensures
        is_listing(table@, parent, *by, res@),
{
    let (res, Ghost(sel)) = select_page(table, parent, by, table.len());
    proof {
        lemma_selected_rows(table@, parent, *by, sel, res@);
        if sel.len() == table@.len() {
            let all = vstd::set_lib::set_int_range(0, table@.len() as int);
            vstd::set_lib::lemma_int_range(0, table@.len() as int);
            sel.unique_seq_to_set();
            assert(sel.to_set().subset_of(all)) by {
                assert forall|j: int| sel.to_set().contains(j) implies all.contains(j) by {
                    let w = choose|w: int| 0 <= w < sel.len() && sel[w] == j;
                    assert(0 <= sel[w] < table@.len());
                }
            }
            vstd::set_lib::lemma_len_subset(sel.to_set(), all);
            vstd::set_lib::lemma_subset_equality(sel.to_set(), all);
            assert forall|j: int| 0 <= j < table@.len() implies sel.contains(j) by {
                assert(all.contains(j));
                assert(sel.to_set().contains(j));
            }
        }
    }
    res
}

/// Adding a row with an unused id, and a name unused among the live
/// children of its parent, keeps ids and names unique.
pub proof fn lemma_push_keeps_unique<T: Resource>(table: Seq<T>, row: T)
    requires
        ids_unique(table),
        names_unique(table),
        !id_in_use(table, row.identity_of().id),
        row.identity_of().live() ==> !name_in_use(
            table,
            row.parent_of(),
            row.identity_of().name@,
        ),
    ensures
        ids_unique(table.push(row)),
        names_unique(table.push(row)),
{
    let after = table.push(row);
    assert forall|i: int, j: int| 0 <= i < j < after.len() implies (
    #[trigger] after[i]).identity_of().id != (#[trigger] after[j]).identity_of().id by {
        if j == table.len() {
            assert(table[i].identity_of().id != row.identity_of().id);
        } else {
            assert(table[i].identity_of().id != table[j].identity_of().id);
        }
    }
    assert forall|i: int, j: int|
        0 <= i < j < after.len() && live_child(#[trigger] after[i], after[j].parent_of()) && (
        #[trigger] after[j]).identity_of().live() implies after[i].identity_of().name@
        != after[j].identity_of().name@ by {
        if j == table.len() {
            assert(live_child(table[i], row.parent_of()));
        } else {
            assert(live_child(table[i], table[j].parent_of()));
        }
    }
}

/// Replacing a row by one with the same id and parent keeps ids and names
/// unique, if the new row is deleted, or keeps the name of a live row, or
/// has a name that no other live child of the parent has.
pub proof fn lemma_update_keeps_unique<T: Resource>(table: Seq<T>, at: int, row: T)
    requires
        ids_unique(table),
        names_unique(table),
        0 <= at < table.len(),
        row.identity_of().id == table[at].identity_of().id,
        row.parent_of() == table[at].parent_of(),
        row.identity_of().live() ==> (table[at].identity_of().live() && row.identity_of().name@
            == table[at].identity_of().name@) || !name_in_use_by_other(
            table,
            row.parent_of(),
            row.identity_of().name@,
            row.identity_of().id,
        ),
    ensures
        ids_unique(table.update(at, row)),
        names_unique(table.update(at, row)),
{
    let after = table.update(at, row);
    assert forall|i: int, j: int| 0 <= i < j < after.len() implies (
    #[trigger] after[i]).identity_of().id != (#[trigger] after[j]).identity_of().id by {
        assert(table[i].identity_of().id != table[j].identity_of().id);
    }
    assert forall|i: int, j: int|
        0 <= i < j < after.len() && live_child(#[trigger] after[i], after[j].parent_of()) && (
        #[trigger] after[j]).identity_of().live() implies after[i].identity_of().name@
        != after[j].identity_of().name@ by {
        assert(table[i].identity_of().id != table[j].identity_of().id);
        if i != at && j != at {
            assert(live_child(table[i], table[j].parent_of()));
        } else {
            let other = if i == at {
                j
            } else {
                i
            };
            if table[at].identity_of().live() && row.identity_of().name@
                == table[at].identity_of().name@ {
                assert(live_child(table[i], table[j].parent_of()));
            } else {
                assert(live_child(table[other], row.parent_of()));
            }
        }
    }
}

/// Where a row with the name goes into a sequence sorted by name: before
/// the first row whose name does not sort before it.
pub open spec fn insertion_point<T: Resource>(sorted: Seq<T>, name: Seq<char>) -> int
    decreases sorted.len(),
{
    if sorted.len() == 0 || !name_lt(sorted[0].identity_of().name@, name) {
        0
    } else {
        1 + insertion_point(sorted.drop_first(), name)
    }
}

/// The rows sorted by name; rows of one name stay in the order in which
/// they came.
pub open spec fn sorted_by_name<T: Resource>(rows: Seq<T>) -> Seq<T>
    decreases rows.len(),
{
    if rows.len() == 0 {
        Seq::empty()
    } else {
        let rest = sorted_by_name(rows.drop_first());
        rest.insert(insertion_point(rest, rows[0].identity_of().name@), rows[0])
    }
}

/// No row of the sequence has a name that sorts before the name of a row
/// ahead of it.
pub open spec fn ordered_by_name<T: Resource>(rows: Seq<T>) -> bool {
    forall|i: int, j: int|
        0 <= i < j < rows.len() ==> !name_lt(
            (#[trigger] rows[j]).identity_of().name@,
            (#[trigger] rows[i]).identity_of().name@,
        )
}

/// The insertion point lies within the sequence; the rows before it have
/// names that sort before the name, and the row at it has not.
pub proof fn lemma_insertion_point<T: Resource>(sorted: Seq<T>, name: Seq<char>)
    ensures
        0 <= insertion_point(sorted, name) <= sorted.len(),
        forall|i: int|
            0 <= i < insertion_point(sorted, name) ==> name_lt(
                (#[trigger] sorted[i]).identity_of().name@,
                name,
            ),
        insertion_point(sorted, name) < sorted.len() ==> !name_lt(
            sorted[insertion_point(sorted, name)].identity_of().name@,
            name,
        ),
    decreases sorted.len(),
{
    if sorted.len() == 0 || !name_lt(sorted[0].identity_of().name@, name) {
    } else {
        let rest = sorted.drop_first();
        lemma_insertion_point(rest, name);
        assert forall|i: int| 0 <= i < insertion_point(sorted, name) implies name_lt(
            (#[trigger] sorted[i]).identity_of().name@,
            name,
        ) by {
            if i > 0 {
                assert(sorted[i] == rest[i - 1]);
            }
        }
        if insertion_point(sorted, name) < sorted.len() {
            assert(sorted[insertion_point(sorted, name)] == rest[insertion_point(rest, name)]);
        }
    }
}

/// Sorting keeps the number of rows, keeps every row, adds none, and
/// leaves the rows ordered by name.
pub proof fn lemma_sorted_by_name<T: Resource>(rows: Seq<T>)
    ensures
        sorted_by_name(rows).len() == rows.len(),
        forall|i: int| 0 <= i < rows.len() ==> sorted_by_name(rows).contains(#[trigger] rows[i]),
        forall|k: int|
            0 <= k < rows.len() ==> rows.contains(#[trigger] sorted_by_name(rows)[k]),
        ordered_by_name(sorted_by_name(rows)),
    decreases rows.len(),
{
    if rows.len() > 0 {
        let tail = rows.drop_first();
        let rest = sorted_by_name(tail);
        let name = rows[0].identity_of().name@;
        let at = insertion_point(rest, name);
        let out = rest.insert(at, rows[0]);
        lemma_sorted_by_name(tail);
        lemma_insertion_point(rest, name);
        rest.insert_ensures(at, rows[0]);
        assert(out == sorted_by_name(rows));
        assert forall|k: int| 0 <= k < out.len() implies (#[trigger] out[k]) == (if k < at {
            rest[k]
        } else if k == at {
            rows[0]
        } else {
            rest[k - 1]
        }) by {}
        assert forall|i: int| 0 <= i < rows.len() implies out.contains(#[trigger] rows[i]) by {
            if i == 0 {
                assert(out[at] == rows[0]);
            } else {
                assert(rows[i] == tail[i - 1]);
                assert(rest.contains(tail[i - 1]));
                let w = choose|w: int| 0 <= w < rest.len() && rest[w] == tail[i - 1];
                if w < at {
                    assert(out[w] == rows[i]);
                } else {
                    assert(out[w + 1] == rows[i]);
                }
            }
        }
        assert forall|k: int| 0 <= k < rows.len() implies rows.contains(#[trigger] out[k]) by {
            if k == at {
                assert(rows[0] == out[k]);
            } else {
                let r = if k < at {
                    rest[k]
                } else {
                    rest[k - 1]
                };
                assert(tail.contains(r));
                let w = choose|w: int| 0 <= w < tail.len() && tail[w] == r;
                assert(rows[w + 1] == r);
            }
        }
        assert forall|i: int, j: int| 0 <= i < j < out.len() implies !name_lt(
            (#[trigger] out[j]).identity_of().name@,
            (#[trigger] out[i]).identity_of().name@,
        ) by {
            if j == at {
                lemma_name_lt_asymmetric(out[i].identity_of().name@, name);
            } else if i == at {
                if name_lt(out[j].identity_of().name@, name) {
                    if !name_lt(rest[j - 1].identity_of().name@, rest[at].identity_of().name@)
                        && rest[j - 1].identity_of().name@ != rest[at].identity_of().name@ {
                        lemma_name_lt_total(
                            rest[j - 1].identity_of().name@,
                            rest[at].identity_of().name@,
                        );
                        lemma_name_lt_transitive(
                            rest[at].identity_of().name@,
                            rest[j - 1].identity_of().name@,
                            name,
                        );
                    }
                    if j - 1 > at {
                        assert(!name_lt(
                            rest[j - 1].identity_of().name@,
                            rest[at].identity_of().name@,
                        ));
                    }
                }
            } else {
                let a = if i < at {
                    i
                } else {
                    i - 1
                };
                let b = if j < at {
                    j
                } else {
                    j - 1
                };
                assert(!name_lt(rest[b].identity_of().name@, rest[a].identity_of().name@));
            }
        }
    }
}

/// Sorts the rows by name; rows of one name stay in the order in which
/// they came.
#[verifier::loop_isolation(false)]
pub fn sort_by_name<T: Resource>(rows: Vec<T>) -> (res: Vec<T>)
    ensures
        res@ == sorted_by_name(rows@),
{
    let ghost all = rows@;
    let mut rows = rows;
    let mut out: Vec<T> = Vec::new();
    assert(all.skip(all.len() as int) =~= Seq::empty());
    while rows.len() > 0
        invariant
            rows@ == all.take(rows.len() as int),
            rows.len() <= all.len(),
            out@ == sorted_by_name(all.skip(rows.len() as int)),
        decreases rows.len(),
    {
        let ghost n = rows.len() as int;
        let row = rows.pop().unwrap();
        assert(row == all[n - 1]);
        let ghost name = row.identity_of().name@;
        let mut at: usize = 0;
        assert(out@.skip(0) =~= out@);
        while at < out.len() && str_lt(out[at].identity().name.as_str(), row.identity().name.as_str())
            invariant
                at <= out.len(),
                insertion_point(out@, name) == at + insertion_point(out@.skip(at as int), name),
            decreases out.len() - at,
        {
            assert(out@.skip(at as int).drop_first() =~= out@.skip(at + 1));
            at += 1;
        }
        proof {
            if at < out.len() {
                assert(out@.skip(at as int)[0] == out@[at as int]);
            }
            assert(all.skip(n - 1).drop_first() =~= all.skip(n));
            assert(all.skip(n - 1)[0] == row);
            assert(rows@ =~= all.take(n - 1));
        }
        out.insert(at, row);
    }
    assert(all.skip(0) =~= all);
    out
}

} // verus!

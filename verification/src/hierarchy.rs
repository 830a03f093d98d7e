//! The page hierarchy: ancestor chains, depths, and the rules for moving a
//! page or creating a child page.

use vstd::prelude::*;
use crate::ids::{PageId, uuid_text};
use crate::page::{Page, PageError};

verus! {

/// Maximum nesting depth for the page hierarchy (root = depth 1).
pub const MAX_DEPTH: usize = 5;

/// How many parent links an ancestor chain follows at most (a safety limit
/// against corrupt, cyclic data).
pub const CHAIN_LIMIT: usize = 10;

/// The index of the first page in `pages` with the given ID, if any.
pub open spec fn first_index(pages: Seq<Page>, id: PageId) -> Option<int>
    decreases pages.len(),
{
    if pages.len() == 0 {
        None
    } else {
        match first_index(pages.drop_last(), id) {
            Some(i) => Some(i),
            None => if pages.last()@.id == id {
                Some(pages.len() - 1)
            } else {
                None
            },
        }
    }
}

/// The parent of the first page with the given ID, if that page exists and
/// has a parent.
pub open spec fn parent_of(pages: Seq<Page>, id: PageId) -> Option<PageId> {
    match first_index(pages, id) {
        Some(i) => pages[i]@.parent_id,
        None => None,
    }
}

/// The ancestor chain of `id`: its parent, the parent's parent, and so on,
/// following at most `fuel` parent links.
pub open spec fn ancestors(pages: Seq<Page>, id: PageId, fuel: nat) -> Seq<PageId>
    decreases fuel,
{
    if fuel == 0 {
        Seq::empty()
    } else {
        match parent_of(pages, id) {
            Some(p) => seq![p] + ancestors(pages, p, (fuel - 1) as nat),
            None => Seq::empty(),
        }
    }
}

/// Whether the search for descendants of `id` ends within `fuel` levels:
/// every chain of child pages below `id` is shorter than `fuel`.
pub open spec fn descent_ends(pages: Seq<Page>, id: PageId, fuel: nat) -> bool
    decreases fuel,
{
    fuel > 0 && forall|i: int|
        0 <= i < pages.len() && #[trigger] pages[i]@.parent_id == Some(id) ==> descent_ends(
            pages,
            pages[i]@.id,
            (fuel - 1) as nat,
        )
}

/// The depth of the deepest descendant of `id` below it, considering the
/// children of `id` among the first `k` pages, with `fuel` levels of search.
pub open spec fn descent_depth(pages: Seq<Page>, id: PageId, fuel: nat, k: nat) -> nat
    decreases fuel, k,
{
    if fuel == 0 || k == 0 || k > pages.len() {
        0
    } else {
        let rest = descent_depth(pages, id, fuel, (k - 1) as nat);
        if pages[k - 1]@.parent_id == Some(id) {
            let d = 1 + descent_depth(pages, pages[k - 1]@.id, (fuel - 1) as nat, pages.len());
            if d > rest {
                d
            } else {
                rest
            }
        } else {
            rest
        }
    }
}

/// The maximum depth of descendants of `id` (0 when it has no children).
pub open spec fn max_descent(pages: Seq<Page>, id: PageId) -> nat {
    descent_depth(pages, id, (pages.len() + 1) as nat, pages.len())
}

/// Whether `new_parent` is the page itself or one of the page's descendants
/// (the page appears among the target's ancestors).
pub open spec fn move_is_circular(
    page: Page,
    new_parent: Option<PageId>,
    ancestors_of_target: Seq<PageId>,
) -> bool {
    match new_parent {
        None => false,
        Some(t) => t == page@.id || ancestors_of_target.contains(page@.id),
    }
}

/// The outcome of moving `page` under `new_parent`, given the ancestors of
/// the target and the depth of the page's own subtree.
pub open spec fn move_allowed(
    page: Page,
    new_parent: Option<PageId>,
    ancestors_of_target: Seq<PageId>,
    max_descendant_depth: usize,
) -> bool {
    !move_is_circular(page, new_parent, ancestors_of_target) && page@.database_id is None
        && match new_parent {
        None => true,
        Some(t) => ancestors_of_target.len() + 2 + max_descendant_depth <= MAX_DEPTH,
    }
}

/// The error that moving `page` under `new_parent` is refused with: a
/// circular move first, then a database page, then the depth limit.
pub open spec fn move_error(
    page: Page,
    new_parent: Option<PageId>,
    ancestors_of_target: Seq<PageId>,
    max_descendant_depth: usize,
    e: PageError,
) -> bool {
    if move_is_circular(page, new_parent, ancestors_of_target) {
        e matches PageError::CircularReference { page_id, target_parent_id }
            && page_id@ == uuid_text(page@.id@) && target_parent_id@ == uuid_text(
            new_parent.unwrap()@,
        )
    } else if page@.database_id is Some {
        e matches PageError::DatabasePageCannotNest { page_id } && page_id@ == uuid_text(
            page@.id@,
        )
    } else {
        match new_parent {
            None => false,
            Some(t) => e matches PageError::MaxDepthExceeded {
                page_id,
                current_depth,
                max_depth,
            } && page_id@ == uuid_text(page@.id@) && current_depth
                == ancestors_of_target.len() + 2 + max_descendant_depth && max_depth == MAX_DEPTH,
        }
    }
}

/// Domain service for page hierarchy validation. All methods are pure
/// functions of in-memory page data.
pub struct PageHierarchyService;

/// The index of the first page with the given ID.
fn find_index(pages: &[Page], id: &PageId) -> (r: Option<usize>)
    ensures
        match r {
            Some(i) => first_index(pages@, *id) == Some(i as int) && i < pages.len(),
            None => first_index(pages@, *id) is None,
        },
{
    let mut i: usize = 0;
    while i < pages.len()
        invariant
            i <= pages.len(),
            first_index(pages@.subrange(0, i as int), *id) is None,
        decreases pages.len() - i,
    {
        proof {
            assert(pages@.subrange(0, i + 1).drop_last() =~= pages@.subrange(0, i as int));
        }
        if *pages[i].id() == *id {
            proof {
                lemma_first_index_prefix(pages@, *id, (i + 1) as int);
            }
            return Some(i);
        }
        i = i + 1;
    }
    proof {
        assert(pages@.subrange(0, pages@.len() as int) =~= pages@);
    }
    None
}

/// The first index found in a prefix is the first index in the whole.
proof fn lemma_first_index_prefix(pages: Seq<Page>, id: PageId, k: int)
    requires
        0 <= k <= pages.len(),
        first_index(pages.subrange(0, k), id) is Some,
    ensures
        first_index(pages, id) == first_index(pages.subrange(0, k), id),
    decreases pages.len() - k,
{
    if k < pages.len() {
        assert(pages.subrange(0, k + 1).drop_last() =~= pages.subrange(0, k));
        lemma_first_index_prefix(pages, id, k + 1);
    } else {
        assert(pages.subrange(0, k) =~= pages);
    }
}

/// Whether `ids` contains `id`.
fn contains_id(ids: &[PageId], id: &PageId) -> (r: bool)
    ensures
        r == ids@.contains(*id),
{
    let mut i: usize = 0;
    while i < ids.len()
        invariant
            i <= ids.len(),
            forall|j: int| 0 <= j < i ==> ids@[j] != *id,
        decreases ids.len() - i,
    {
        if ids[i] == *id {
            return true;
        }
        i = i + 1;
    }
    false
}

/// The search for descendants with `fuel` levels.
fn descent_rec(page_id: &PageId, pages: &[Page], fuel: usize) -> (r: usize)
    requires
        descent_ends(pages@, *page_id, fuel as nat),
    ensures
        r == descent_depth(pages@, *page_id, fuel as nat, pages.len() as nat),
        r < fuel,
    decreases fuel,
{
    let mut max: usize = 0;
    let mut i: usize = 0;
    while i < pages.len()
        invariant
            i <= pages.len(),
            fuel > 0,
            descent_ends(pages@, *page_id, fuel as nat),
            max == descent_depth(pages@, *page_id, fuel as nat, i as nat),
            max < fuel,
        decreases pages.len() - i,
    {
        let is_child = match pages[i].parent_id() {
            Some(p) => *p == *page_id,
            None => false,
        };
        if is_child {
            let d = 1 + descent_rec(pages[i].id(), pages, fuel - 1);
            if d > max {
                max = d;
            }
        }
        i = i + 1;
    }
    max
}

impl PageHierarchyService {
    /// Validates that moving a page under a new parent is safe. Checks
    /// self-reference first, then circular reference via the ancestor chain,
    /// then the database page restriction (a database page may not move,
    /// not even to the root), and finally the depth limit; any other page may
    /// always move to the root.
    ///
    /// # Errors
    ///
    /// - [`PageError::CircularReference`] if the target is the page itself or
    ///   the page is among the target's ancestors.
    /// - [`PageError::DatabasePageCannotNest`] if the page is a database page.
    /// - [`PageError::MaxDepthExceeded`] if the resulting depth exceeds
    ///   [`MAX_DEPTH`].
    pub fn validate_move(
        page: &Page,
        new_parent_id: Option<&PageId>,
        ancestors_of_target: &[PageId],
        max_descendant_depth: usize,
    ) -> (r: Result<(), PageError>)
        requires
            ancestors_of_target.len() + 2 + max_descendant_depth <= usize::MAX,
        ensures
            r is Ok <==> move_allowed(
                *page,
                match new_parent_id {
                    Some(t) => Some(*t),
                    None => None,
                },
                ancestors_of_target@,
                max_descendant_depth,
            ),
            r matches Err(e) ==> move_error(
                *page,
                match new_parent_id {
                    Some(t) => Some(*t),
                    None => None,
                },
                ancestors_of_target@,
                max_descendant_depth,
                e,
            ),
    {
        if let Some(target_parent_id) = new_parent_id {
            if *page.id() == *target_parent_id || contains_id(ancestors_of_target, page.id()) {
                return Err(
                    PageError::CircularReference {
                        page_id: page.id().to_string(),
                        target_parent_id: target_parent_id.to_string(),
                    },
                );
            }
        }
        if page.is_database_page() {
            return Err(PageError::DatabasePageCannotNest { page_id: page.id().to_string() });
        }
        if new_parent_id.is_none() {
            return Ok(());
        }
        let new_page_depth = ancestors_of_target.len() + 2;
        let deepest = new_page_depth + max_descendant_depth;
        if deepest > MAX_DEPTH {
            return Err(
                PageError::MaxDepthExceeded {
                    page_id: page.id().to_string(),
                    current_depth: deepest,
                    max_depth: MAX_DEPTH,
                },
            );
        }
        Ok(())
    }

    /// Validates that creating a child page under a parent at depth
    /// `parent_depth` is safe.
    ///
    /// # Errors
    ///
    /// - [`PageError::DatabasePageCannotNest`] if the parent is a database page.
    /// - [`PageError::MaxDepthExceeded`] if the child would lie below
    ///   [`MAX_DEPTH`].
    pub fn validate_create_child(parent: &Page, parent_depth: usize) -> (r: Result<
        (),
        PageError,
    >)
        requires
            parent_depth < usize::MAX,
        ensures
            r is Ok <==> parent@.database_id is None && parent_depth + 1 <= MAX_DEPTH,
            r matches Err(e) ==> if parent@.database_id is Some {
                e matches PageError::DatabasePageCannotNest { page_id } && page_id@ == uuid_text(
                    parent@.id@,
                )
            } else {
                e matches PageError::MaxDepthExceeded { page_id, current_depth, max_depth }
                    && page_id@ == uuid_text(parent@.id@) && current_depth == parent_depth + 1
                    && max_depth == MAX_DEPTH
            },
    {
        if parent.is_database_page() {
            return Err(PageError::DatabasePageCannotNest { page_id: parent.id().to_string() });
        }
        let child_depth = parent_depth + 1;
        if child_depth > MAX_DEPTH {
            return Err(
                PageError::MaxDepthExceeded {
                    page_id: parent.id().to_string(),
                    current_depth: child_depth,
                    max_depth: MAX_DEPTH,
                },
            );
        }
        Ok(())
    }

    /// Builds the list of ancestor IDs of the given page, from its parent up
    /// to the root, following at most [`CHAIN_LIMIT`] parent links. A page
    /// that is not in `pages`, or has no parent, has an empty chain.
    pub fn ancestor_chain(page_id: &PageId, pages: &[Page]) -> (r: Vec<PageId>)
        ensures
            r@ == ancestors(pages@, *page_id, CHAIN_LIMIT as nat),
    {
        let mut chain: Vec<PageId> = Vec::new();
        let mut current_id: PageId = *page_id;
        let mut k: usize = 0;
        let mut done = false;
        while k < CHAIN_LIMIT && !done
            invariant
                k <= CHAIN_LIMIT,
                chain@.len() == k,
                done ==> ancestors(pages@, current_id, (CHAIN_LIMIT - k) as nat) == Seq::<
                    PageId,
                >::empty(),
                chain@ + ancestors(pages@, current_id, (CHAIN_LIMIT - k) as nat) == ancestors(
                    pages@,
                    *page_id,
                    CHAIN_LIMIT as nat,
                ),
            decreases CHAIN_LIMIT - k + (if done { 0int } else { 1int }),
        {
            let found = find_index(pages, &current_id);
            let parent = match found {
                Some(i) => match pages[i].parent_id() {
                    Some(p) => Some(*p),
                    None => None,
                },
                None => None,
            };
            match parent {
                Some(pid) => {
                    proof {
                        assert(chain@.push(pid) + ancestors(
                            pages@,
                            pid,
                            (CHAIN_LIMIT - k - 1) as nat,
                        ) =~= chain@ + ancestors(pages@, current_id, (CHAIN_LIMIT - k) as nat));
                    }
                    chain.push(pid);
                    current_id = pid;
                    k = k + 1;
                },
                None => {
                    done = true;
                },
            }
        }
        proof {
            if !done {
                assert(k == CHAIN_LIMIT);
            }
            assert(chain@ + Seq::<PageId>::empty() =~= chain@);
        }
        chain
    }

    /// Calculates the depth of a page (root = 1): one more than the length of
    /// its ancestor chain.
    pub fn depth(page_id: &PageId, pages: &[Page]) -> (r: usize)
        ensures
            r == ancestors(pages@, *page_id, CHAIN_LIMIT as nat).len() + 1,
    {
        proof {
            lemma_ancestors_len(pages@, *page_id, CHAIN_LIMIT as nat);
        }
        Self::ancestor_chain(page_id, pages).len() + 1
    }

    /// Calculates the maximum depth of descendants of a page (0 when it has
    /// no children). Defined on hierarchies without cycles below the page
    /// (on a cycle the search would not end).
    pub fn max_descendant_depth(page_id: &PageId, pages: &[Page]) -> (r: usize)
        requires
            pages.len() < usize::MAX,
            descent_ends(pages@, *page_id, (pages.len() + 1) as nat),
        ensures
            r == max_descent(pages@, *page_id),
    {
        descent_rec(page_id, pages, pages.len() + 1)
    }
}

/// An ancestor chain is no longer than the links it may follow.
pub proof fn lemma_ancestors_len(pages: Seq<Page>, id: PageId, fuel: nat)
    ensures
        ancestors(pages, id, fuel).len() <= fuel,
    decreases fuel,
{
    if fuel > 0 {
        match parent_of(pages, id) {
            Some(p) => lemma_ancestors_len(pages, p, (fuel - 1) as nat),
            None => {},
        }
    }
}

/// A search that ends within `f1` levels ends within any larger number.
proof fn lemma_descent_ends_mono(pages: Seq<Page>, id: PageId, f1: nat, f2: nat)
    requires
        descent_ends(pages, id, f1),
        f1 <= f2,
    ensures
        descent_ends(pages, id, f2),
    decreases f1,
{
    assert forall|i: int|
        0 <= i < pages.len() && #[trigger] pages[i]@.parent_id == Some(id) implies descent_ends(
        pages,
        pages[i]@.id,
        (f2 - 1) as nat,
    ) by {
        lemma_descent_ends_mono(pages, pages[i]@.id, (f1 - 1) as nat, (f2 - 1) as nat);
    }
}

/// Once the search ends, more levels of search find the same depth.
proof fn lemma_depth_fuel(pages: Seq<Page>, id: PageId, f1: nat, f2: nat, k: nat)
    requires
        descent_ends(pages, id, f1),
        f1 <= f2,
        k <= pages.len(),
    ensures
        descent_depth(pages, id, f1, k) == descent_depth(pages, id, f2, k),
    decreases f1, k,
{
    if k > 0 {
        lemma_depth_fuel(pages, id, f1, f2, (k - 1) as nat);
        if pages[k - 1]@.parent_id == Some(id) {
            let c = pages[k - 1]@.id;
            assert(descent_ends(pages, c, (f1 - 1) as nat));
            lemma_depth_fuel(pages, c, (f1 - 1) as nat, (f2 - 1) as nat, pages.len());
        }
    }
}

/// The depth over the first `k` pages is at least one more than the depth
/// below each child among them.
proof fn lemma_depth_ge_child(pages: Seq<Page>, id: PageId, fuel: nat, k: nat, i: int)
    requires
        fuel > 0,
        k <= pages.len(),
        0 <= i < k,
        pages[i]@.parent_id == Some(id),
    ensures
        descent_depth(pages, id, fuel, k) >= 1 + descent_depth(pages, pages[i]@.id, (fuel - 1) as nat, pages.len()),
    decreases k,
{
    if i < k - 1 {
        lemma_depth_ge_child(pages, id, fuel, (k - 1) as nat, i);
    }
}

/// The depth over the first `k` pages is 0 when none of them is a child, and
/// otherwise one more than the depth below one of the children among them.
proof fn lemma_depth_attained(pages: Seq<Page>, id: PageId, fuel: nat, k: nat)
    requires
        fuel > 0,
        k <= pages.len(),
    ensures
        (forall|i: int| 0 <= i < k ==> pages[i]@.parent_id != Some(id)) ==> descent_depth(pages, id, fuel, k) == 0,
        (exists|i: int| 0 <= i < k && pages[i]@.parent_id == Some(id)) ==> exists|i: int|
            0 <= i < k && pages[i]@.parent_id == Some(id) && descent_depth(pages, id, fuel, k) == 1
                + descent_depth(pages, pages[i]@.id, (fuel - 1) as nat, pages.len()),
    decreases k,
{
    if k > 0 {
        lemma_depth_attained(pages, id, fuel, (k - 1) as nat);
        let rest = descent_depth(pages, id, fuel, (k - 1) as nat);
        if pages[k - 1]@.parent_id == Some(id) {
            let d = 1 + descent_depth(pages, pages[k - 1]@.id, (fuel - 1) as nat, pages.len());
            if d > rest {
                assert(pages[k - 1]@.parent_id == Some(id) && descent_depth(pages, id, fuel, k) == d);
            } else {
                if exists|i: int| 0 <= i < k - 1 && pages[i]@.parent_id == Some(id) {
                    let w = choose|i: int| 0 <= i < k - 1 && pages[i]@.parent_id == Some(id) && rest == 1
                        + descent_depth(pages, pages[i]@.id, (fuel - 1) as nat, pages.len());
                    assert(0 <= w < k && pages[w]@.parent_id == Some(id));
                } else {
                    assert(pages[k - 1]@.parent_id == Some(id) && descent_depth(pages, id, fuel, k) == d);
                }
            }
        } else {
            if exists|i: int| 0 <= i < k && pages[i]@.parent_id == Some(id) {
                let w = choose|i: int| 0 <= i < k && pages[i]@.parent_id == Some(id);
                assert(w < k - 1);
            }
        }
    }
}

/// The depth below a page is the maximum over all of its children: at least
/// one more than the depth below every child (not only the first), equal to
/// one more than the depth below some child when it has children, and 0
/// when it has none.
pub proof fn law_descent_depth_over_children(pages: Seq<Page>, id: PageId)
    requires
        descent_ends(pages, id, (pages.len() + 1) as nat),
    ensures
        forall|i: int| 0 <= i < pages.len() && #[trigger] pages[i]@.parent_id == Some(id) ==> descent_ends(
            pages,
            pages[i]@.id,
            (pages.len() + 1) as nat,
        ) && max_descent(pages, id) >= 1 + max_descent(pages, pages[i]@.id),
        (exists|i: int| 0 <= i < pages.len() && pages[i]@.parent_id == Some(id)) ==> exists|i: int|
            0 <= i < pages.len() && pages[i]@.parent_id == Some(id) && max_descent(pages, id) == 1
                + max_descent(pages, pages[i]@.id),
        (forall|i: int| 0 <= i < pages.len() ==> pages[i]@.parent_id != Some(id)) ==> max_descent(pages, id) == 0,
{
    let n = pages.len();
    let f = (n + 1) as nat;
    assert forall|i: int| 0 <= i < n && #[trigger] pages[i]@.parent_id == Some(id) implies descent_ends(
        pages,
        pages[i]@.id,
        f,
    ) && descent_depth(pages, pages[i]@.id, n as nat, n as nat) == max_descent(pages, pages[i]@.id)
        && max_descent(pages, id) >= 1 + max_descent(pages, pages[i]@.id) by {
        let c = pages[i]@.id;
        assert(descent_ends(pages, c, n as nat));
        lemma_descent_ends_mono(pages, c, n as nat, f);
        lemma_depth_fuel(pages, c, n as nat, f, n as nat);
        lemma_depth_ge_child(pages, id, f, n as nat, i);
    }
    lemma_depth_attained(pages, id, f, n as nat);
    if exists|i: int| 0 <= i < n && pages[i]@.parent_id == Some(id) {
        let w = choose|i: int| 0 <= i < n && pages[i]@.parent_id == Some(id) && descent_depth(pages, id, f, n as nat)
            == 1 + descent_depth(pages, pages[i]@.id, n as nat, n as nat);
        assert(pages[w]@.parent_id == Some(id));
        assert(0 <= w < n && pages[w]@.parent_id == Some(id) && max_descent(pages, id) == 1 + max_descent(
            pages,
            pages[w]@.id,
        ));
    }
}

} // verus!

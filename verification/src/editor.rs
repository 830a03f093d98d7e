//! The editing session of one page: the page's blocks held in memory while
//! the user adds, edits, moves and removes them, with a flag for unsaved
//! changes.

use vstd::prelude::*;
use crate::block::{Block, BlockContent, BlockError, BlockPosition, BlockView, MAX_CONTENT_LENGTH};
use crate::ids::{BlockId, PageId, uuid_text, uuid_version};

verus! {

/// The views of a sequence of blocks.
pub open spec fn views(blocks: Seq<Block>) -> Seq<BlockView> {
    blocks.map_values(|b: Block| b@)
}

/// The index of the first block with the given ID, if any.
pub open spec fn block_index(blocks: Seq<BlockView>, id: BlockId) -> Option<int> {
    if exists|i: int| 0 <= i < blocks.len() && blocks[i].id == id {
        Some(
            choose|i: int|
                0 <= i < blocks.len() && blocks[i].id == id && forall|j: int|
                    0 <= j < i ==> blocks[j].id != id,
        )
    } else {
        None
    }
}

/// The blocks with each one's position set to its index (positions beyond
/// `i64::MAX` cannot be written and stay as they were).
pub open spec fn renumbered(blocks: Seq<BlockView>) -> Seq<BlockView> {
    Seq::new(
        blocks.len(),
        |i: int|
            if i <= i64::MAX {
                blocks[i].at_position(i as i64)
            } else {
                blocks[i]
            },
    )
}

/// The blocks with the ones at `i` and `j` exchanged.
pub open spec fn swapped(blocks: Seq<BlockView>, i: int, j: int) -> Seq<BlockView> {
    blocks.update(i, blocks[j]).update(j, blocks[i])
}

/// Whether every block's position is its index.
pub open spec fn positions_are_indices(blocks: Seq<BlockView>) -> bool {
    forall|i: int| 0 <= i < blocks.len() ==> blocks[i].position == i
}

/// What an editor session holds, as plain values.
pub struct EditorView {
    /// The page being edited.
    pub page_id: PageId,
    /// The blocks in display order.
    pub blocks: Seq<BlockView>,
    /// Whether there are unsaved changes.
    pub is_dirty: bool,
}

/// An in-memory editing session for a single page's blocks.
pub struct EditorSession {
    page_id: PageId,
    blocks: Vec<Block>,
    is_dirty: bool,
}

impl View for EditorSession {
    type V = EditorView;

    closed spec fn view(&self) -> EditorView {
        EditorView { page_id: self.page_id, blocks: views(self.blocks@), is_dirty: self.is_dirty }
    }
}

/// The index of the first block with the given ID.
fn find_block(blocks: &Vec<Block>, id: &BlockId) -> (r: Option<usize>)
    ensures
        match r {
            Some(i) => block_index(views(blocks@), *id) == Some(i as int) && i < blocks.len(),
            None => block_index(views(blocks@), *id) is None,
        },
{
    let ghost vs = views(blocks@);
    let mut i: usize = 0;
    while i < blocks.len()
        invariant
            i <= blocks.len(),
            vs == views(blocks@),
            forall|j: int| 0 <= j < i ==> vs[j].id != *id,
        decreases blocks.len() - i,
    {
        if *blocks[i].id() == *id {
            proof {
                let k = choose|k: int|
                    0 <= k < vs.len() && vs[k].id == *id && forall|j: int|
                        0 <= j < k ==> vs[j].id != *id;
                assert(vs[i as int].id == *id);
                if k < i {
                } else if k > i {
                    assert(vs[i as int].id != *id);
                }
            }
            return Some(i);
        }
        i = i + 1;
    }
    None
}

impl EditorSession {
    /// Creates a session for the given page with pre-loaded blocks (assumed
    /// sorted by position); it starts with no unsaved changes.
    pub fn new(page_id: PageId, blocks: Vec<Block>) -> (r: Self)
        ensures
            r@.page_id == page_id,
            r@.blocks == views(blocks@),
            !r@.is_dirty,
    {
        EditorSession { page_id, blocks, is_dirty: false }
    }

    /// Returns a reference to the page ID for this session.
    pub fn page_id(&self) -> (r: &PageId)
        ensures
            *r == self@.page_id,
    {
        &self.page_id
    }

    /// Returns the current block list in position order.
    pub fn blocks(&self) -> (r: &[Block])
        ensures
            views(r@) == self@.blocks,
    {
        self.blocks.as_slice()
    }

    /// Returns whether the session has unsaved changes.
    pub fn is_dirty(&self) -> (r: bool)
        ensures
            r == self@.is_dirty,
    {
        self.is_dirty
    }

    /// Marks the session as saved (no unsaved changes).
    pub fn mark_saved(&mut self)
        ensures
            final(self)@ == (EditorView { is_dirty: false, ..old(self)@ }),
    {
        self.is_dirty = false;
    }

    /// Appends a new empty text block at the end, at the position equal to
    /// the number of blocks before it, and marks the session dirty. Returns
    /// the new block.
    pub fn add_block(&mut self) -> (r: &Block)
        ensures
            final(self)@.page_id == old(self)@.page_id,
            final(self)@.is_dirty,
            final(self)@.blocks.len() == old(self)@.blocks.len() + 1,
            final(self)@.blocks.drop_last() == old(self)@.blocks,
            final(self)@.blocks.last() == r@,
            r@.page_id == old(self)@.page_id,
            r@.block_type == "text"@,
            r@.content == Seq::<char>::empty(),
            r@.position == (if old(self)@.blocks.len() <= i64::MAX {
                old(self)@.blocks.len() as i64
            } else {
                0
            }),
            r@.created_at == r@.updated_at,
            uuid_version(r@.id@) == 7,
    {
        let len = self.blocks.len();
        let position_value: i64 = if len as u64 <= i64::MAX as u64 {
            len as i64
        } else {
            0
        };
        let position = match BlockPosition::try_from(position_value) {
            Ok(p) => p,
            Err(_) => {
                assert(false);
                return &self.blocks[0];
            },
        };
        let block = Block::new(self.page_id, position);
        self.blocks.push(block);
        self.is_dirty = true;
        proof {
            assert(views(self.blocks@).drop_last() =~= views(old(self).blocks@));
        }
        &self.blocks[self.blocks.len() - 1]
    }

    /// Sets each block's position to its index.
    fn renumber_positions(&mut self)
        ensures
            final(self)@ == (EditorView { blocks: renumbered(old(self)@.blocks), ..old(self)@ }),
    {
        let ghost start = views(self.blocks@);
        let mut i: usize = 0;
        while i < self.blocks.len()
            invariant
                i <= self.blocks.len(),
                self.blocks.len() == start.len(),
                self.page_id == old(self).page_id,
                self.is_dirty == old(self).is_dirty,
                start == views(old(self).blocks@),
                forall|j: int| 0 <= j < i ==> views(self.blocks@)[j] == renumbered(start)[j],
                forall|j: int| i <= j < start.len() ==> views(self.blocks@)[j] == start[j],
            decreases self.blocks.len() - i,
        {
            if i as u64 <= i64::MAX as u64 {
                match BlockPosition::try_from(i as i64) {
                    Ok(pos) => {
                        self.blocks[i].set_position(pos);
                    },
                    Err(_) => {},
                }
            }
            i = i + 1;
        }
        proof {
            assert(views(self.blocks@) =~= renumbered(start));
        }
    }

    /// Updates the content of the block identified by `id` and marks the
    /// session dirty.
    ///
    /// # Errors
    ///
    /// - [`BlockError::NotFound`] if no block has the given ID.
    /// - [`BlockError::ContentTooLong`] if the content exceeds 10,000 characters.
    pub fn edit_block_content(&mut self, id: &BlockId, content: String) -> (r: Result<
        (),
        BlockError,
    >)
        ensures
            match block_index(old(self)@.blocks, *id) {
                None => r matches Err(BlockError::NotFound { id: t }) && t@ == uuid_text(id@)
                    && final(self)@ == old(self)@,
                Some(i) => if content@.len() > MAX_CONTENT_LENGTH {
                    r == Err::<(), BlockError>(BlockError::ContentTooLong {
                        len: content@.len() as usize,
                        max: MAX_CONTENT_LENGTH,
                    }) && final(self)@ == old(self)@
                } else {
                    r is Ok && final(self)@ == (EditorView {
                        blocks: old(self)@.blocks.update(
                            i,
                            old(self)@.blocks[i].with_content(content@),
                        ),
                        is_dirty: true,
                        ..old(self)@
                    })
                },
            },
    {
        let index = match find_block(&self.blocks, id) {
            Some(i) => i,
            None => return Err(BlockError::NotFound { id: id.to_string() }),
        };
        let validated = BlockContent::try_from(content)?;
        self.blocks[index].set_content(validated);
        self.is_dirty = true;
        proof {
            assert(views(self.blocks@) =~= views(old(self).blocks@).update(
                index as int,
                views(old(self).blocks@)[index as int].with_content(content@),
            ));
        }
        Ok(())
    }

    /// Moves the block identified by `id` one position up (toward index 0),
    /// renumbers the positions and marks the session dirty.
    ///
    /// # Errors
    ///
    /// - [`BlockError::NotFound`] if no block has the given ID.
    /// - [`BlockError::CannotMoveUp`] if the block is already first.
    pub fn move_block_up(&mut self, id: &BlockId) -> (r: Result<(), BlockError>)
        ensures
            match block_index(old(self)@.blocks, *id) {
                None => r matches Err(BlockError::NotFound { id: t }) && t@ == uuid_text(id@)
                    && final(self)@ == old(self)@,
                Some(i) => if i == 0 {
                    r matches Err(BlockError::CannotMoveUp { id: t }) && t@ == uuid_text(id@)
                        && final(self)@ == old(self)@
                } else {
                    r is Ok && final(self)@ == (EditorView {
                        blocks: renumbered(swapped(old(self)@.blocks, i - 1, i)),
                        is_dirty: true,
                        ..old(self)@
                    })
                },
            },
    {
        let index = match find_block(&self.blocks, id) {
            Some(i) => i,
            None => return Err(BlockError::NotFound { id: id.to_string() }),
        };
        if index == 0 {
            return Err(BlockError::CannotMoveUp { id: id.to_string() });
        }
        let b = self.blocks.remove(index);
        self.blocks.insert(index - 1, b);
        proof {
            assert(views(self.blocks@) =~= swapped(
                views(old(self).blocks@),
                index - 1,
                index as int,
            ));
        }
        self.renumber_positions();
        self.is_dirty = true;
        Ok(())
    }

    /// Moves the block identified by `id` one position down (toward the
    /// end), renumbers the positions and marks the session dirty.
    ///
    /// # Errors
    ///
    /// - [`BlockError::NotFound`] if no block has the given ID.
    /// - [`BlockError::CannotMoveDown`] if the block is already last.
    pub fn move_block_down(&mut self, id: &BlockId) -> (r: Result<(), BlockError>)
        ensures
            match block_index(old(self)@.blocks, *id) {
                None => r matches Err(BlockError::NotFound { id: t }) && t@ == uuid_text(id@)
                    && final(self)@ == old(self)@,
                Some(i) => if i + 1 >= old(self)@.blocks.len() {
                    r matches Err(BlockError::CannotMoveDown { id: t }) && t@ == uuid_text(id@)
                        && final(self)@ == old(self)@
                } else {
                    r is Ok && final(self)@ == (EditorView {
                        blocks: renumbered(swapped(old(self)@.blocks, i, i + 1)),
                        is_dirty: true,
                        ..old(self)@
                    })
                },
            },
    {
        let index = match find_block(&self.blocks, id) {
            Some(i) => i,
            None => return Err(BlockError::NotFound { id: id.to_string() }),
        };
        if index >= self.blocks.len() - 1 {
            return Err(BlockError::CannotMoveDown { id: id.to_string() });
        }
        let b = self.blocks.remove(index);
        self.blocks.insert(index + 1, b);
        proof {
            assert(views(self.blocks@) =~= swapped(
                views(old(self).blocks@),
                index as int,
                index + 1,
            ));
        }
        self.renumber_positions();
        self.is_dirty = true;
        Ok(())
    }

    /// Removes the block identified by `id`, renumbers the remaining
    /// positions and marks the session dirty.
    ///
    /// # Errors
    ///
    /// [`BlockError::NotFound`] if no block has the given ID.
    pub fn remove_block(&mut self, id: &BlockId) -> (r: Result<(), BlockError>)
        ensures
            match block_index(old(self)@.blocks, *id) {
                None => r matches Err(BlockError::NotFound { id: t }) && t@ == uuid_text(id@)
                    && final(self)@ == old(self)@,
                Some(i) => r is Ok && final(self)@ == (EditorView {
                    blocks: renumbered(old(self)@.blocks.remove(i)),
                    is_dirty: true,
                    ..old(self)@
                }),
            },
    {
        let index = match find_block(&self.blocks, id) {
            Some(i) => i,
            None => return Err(BlockError::NotFound { id: id.to_string() }),
        };
        self.blocks.remove(index);
        proof {
            assert(views(self.blocks@) =~= views(old(self).blocks@).remove(index as int));
        }
        self.renumber_positions();
        self.is_dirty = true;
        Ok(())
    }
}

/// After renumbering, every block's position is its index (for any list
/// whose indices fit in an `i64`).
pub proof fn law_renumbered_positions(blocks: Seq<BlockView>)
    requires
        blocks.len() <= i64::MAX + 1,
    ensures
        positions_are_indices(renumbered(blocks)),
{
}

/// Renumbering blocks whose positions are already their indices changes
/// nothing.
pub proof fn law_renumber_idempotent(blocks: Seq<BlockView>)
    requires
        positions_are_indices(blocks),
    ensures
        renumbered(blocks) == blocks,
{
    assert(renumbered(blocks) =~= blocks);
}

/// The first block with an ID is at `i` exactly when it carries the ID and
/// no earlier block does.
pub proof fn lemma_block_index(blocks: Seq<BlockView>, id: BlockId, i: int)
    requires
        0 <= i < blocks.len(),
        blocks[i].id == id,
        forall|j: int| 0 <= j < i ==> blocks[j].id != id,
    ensures
        block_index(blocks, id) == Some(i),
{
    let k = choose|k: int|
        0 <= k < blocks.len() && blocks[k].id == id && forall|j: int| 0 <= j < k ==> blocks[j].id != id;
    if k < i {
        assert(blocks[k].id != id);
    } else if k > i {
        assert(blocks[i].id != id);
    }
}

/// Among the blocks carrying an ID there is a first one.
proof fn lemma_first_exists(blocks: Seq<BlockView>, id: BlockId, i: int)
    requires
        0 <= i < blocks.len(),
        blocks[i].id == id,
    ensures
        exists|k: int|
            0 <= k < blocks.len() && blocks[k].id == id && forall|j: int|
                0 <= j < k ==> blocks[j].id != id,
    decreases i,
{
    if exists|j: int| 0 <= j < i && blocks[j].id == id {
        let j = choose|j: int| 0 <= j < i && blocks[j].id == id;
        lemma_first_exists(blocks, id, j);
    } else {
        assert(forall|j: int| 0 <= j < i ==> blocks[j].id != id);
    }
}

/// What `block_index` says of the block it finds.
pub proof fn lemma_block_index_found(blocks: Seq<BlockView>, id: BlockId)
    requires
        block_index(blocks, id) is Some,
    ensures
        ({
            let i = block_index(blocks, id)->Some_0;
            &&& 0 <= i < blocks.len()
            &&& blocks[i].id == id
            &&& forall|j: int| 0 <= j < i ==> blocks[j].id != id
        }),
{
    let w = choose|w: int| 0 <= w < blocks.len() && blocks[w].id == id;
    lemma_first_exists(blocks, id, w);
}

/// Renumbering keeps every block but its position.
pub proof fn lemma_renumbered_keeps_ids(blocks: Seq<BlockView>)
    ensures
        renumbered(blocks).len() == blocks.len(),
        forall|k: int| 0 <= k < blocks.len() ==> #[trigger] renumbered(blocks)[k].id == blocks[k].id,
{
}

/// Moving a block up and then moving the same block down restores the
/// blocks, when positions were their indices: the second move finds the
/// block one place higher, and is allowed there.
pub proof fn law_move_up_then_down(blocks: Seq<BlockView>, id: BlockId)
    requires
        positions_are_indices(blocks),
        block_index(blocks, id) matches Some(i) && i > 0,
    ensures
        ({
            let i = block_index(blocks, id)->Some_0;
            let moved = renumbered(swapped(blocks, i - 1, i));
            &&& block_index(moved, id) == Some(i - 1)
            &&& i < moved.len()
            &&& renumbered(swapped(moved, i - 1, i)) == blocks
        }),
{
    lemma_block_index_found(blocks, id);
    let i = block_index(blocks, id)->Some_0;
    let sw = swapped(blocks, i - 1, i);
    let moved = renumbered(sw);
    lemma_renumbered_keeps_ids(sw);
    assert(moved[i - 1].id == id);
    assert forall|j: int| 0 <= j < i - 1 implies moved[j].id != id by {
        assert(moved[j].id == sw[j].id);
    }
    lemma_block_index(moved, id, i - 1);
    assert(renumbered(swapped(moved, i - 1, i)) =~= blocks);
}

/// Moving a block down and then moving the same block up restores the
/// blocks, when positions were their indices and the block below it does
/// not carry the same ID.
pub proof fn law_move_down_then_up(blocks: Seq<BlockView>, id: BlockId)
    requires
        positions_are_indices(blocks),
        block_index(blocks, id) matches Some(i) && i + 1 < blocks.len() && blocks[i + 1].id != id,
    ensures
        ({
            let i = block_index(blocks, id)->Some_0;
            let moved = renumbered(swapped(blocks, i, i + 1));
            &&& block_index(moved, id) == Some(i + 1)
            &&& renumbered(swapped(moved, i, i + 1)) == blocks
        }),
{
    lemma_block_index_found(blocks, id);
    let i = block_index(blocks, id)->Some_0;
    let sw = swapped(blocks, i, i + 1);
    let moved = renumbered(sw);
    lemma_renumbered_keeps_ids(sw);
    assert(moved[i + 1].id == id);
    assert forall|j: int| 0 <= j < i + 1 implies moved[j].id != id by {
        assert(moved[j].id == sw[j].id);
    }
    lemma_block_index(moved, id, i + 1);
    assert(renumbered(swapped(moved, i, i + 1)) =~= blocks);
}

} // verus!

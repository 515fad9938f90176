//! The list in which the user picks a branch to switch to.

use vstd::prelude::*;

use crate::geometry::{
    column_width, hits, inner_rect, less, lesser, new_rect, rect_at, text_width, within, Rect,
};

verus! {

/// A branch. `S` is the kind of text: `String` in a program, a sequence of
/// characters in a contract.
#[derive(Debug, PartialEq, Eq)]
pub struct Branch<S> {
    pub name: S,
    /// It is checked out.
    pub current: bool,
    /// It is known from a remote only.
    pub remote: bool,
}

/// What is to be done after the picker has seen an event.
#[derive(Debug, PartialEq, Eq)]
pub enum PickerAction<S> {
    /// Nothing.
    Stay,
    /// Close the picker.
    Close,
    /// Switch to a branch.
    Checkout(Branch<S>),
}

/// A key, as far as the picker tells keys apart.
#[derive(Clone, Copy, Debug, PartialEq, Eq, Structural)]
pub enum Key {
    Esc,
    Up,
    Down,
    Home,
    End,
    Enter,
    Char(char),
    Other,
}

/// What a mouse does, as far as the picker tells it apart.
#[derive(Clone, Copy, Debug, PartialEq, Eq, Structural)]
pub enum MouseKind {
    Moved,
    ScrollUp,
    ScrollDown,
    LeftDown,
    Other,
}

/// Something that a mouse does at a cell.
#[derive(Clone, Copy, Debug, PartialEq, Eq, Structural)]
pub struct MouseEvent {
    pub kind: MouseKind,
    pub column: u16,
    pub row: u16,
}

/// A picker over the branches of a repository. `G` is the handle by which its
/// owner knows the repository.
#[derive(Debug, PartialEq, Eq)]
pub struct BranchPicker<G> {
    pub git: G,
    pub branches: Vec<Branch<String>>,
    /// The branch that the cursor is on.
    pub selected: usize,
    /// The branch in the first row, as of the last drawing.
    pub scroll: usize,
    /// The whole picker with its border, as of the last drawing.
    pub rect: Rect,
}

/// A picker, by its contents.
pub struct PickerView<G> {
    pub git: G,
    pub branches: Seq<Branch<Seq<char>>>,
    pub selected: int,
    pub scroll: int,
    pub rect: Rect,
}

/// A row of the picker, as it is to be drawn: the mark, the name cut to the room
/// there is for it, padding, and what tells a remote branch.
#[derive(Debug, PartialEq, Eq)]
pub struct PickerRow<S> {
    pub mark: S,
    pub name: S,
    pub remote: S,
    /// The columns there are for the name.
    pub room: usize,
    /// The cursor is on the branch.
    pub selected: bool,
}

impl View for Branch<String> {
    type V = Branch<Seq<char>>;

    open spec fn view(&self) -> Branch<Seq<char>> {
        Branch { name: self.name@, current: self.current, remote: self.remote }
    }
}

impl Clone for Branch<String> {
    fn clone(&self) -> (copy: Self)
        ensures
            copy@ == self@,
    {
        Branch { name: self.name.clone(), current: self.current, remote: self.remote }
    }
}

impl View for PickerAction<String> {
    type V = PickerAction<Seq<char>>;

    open spec fn view(&self) -> PickerAction<Seq<char>> {
        match *self {
            PickerAction::Stay => PickerAction::Stay,
            PickerAction::Close => PickerAction::Close,
            PickerAction::Checkout(branch) => PickerAction::Checkout(branch@),
        }
    }
}

impl View for PickerRow<String> {
    type V = PickerRow<Seq<char>>;

    open spec fn view(&self) -> PickerRow<Seq<char>> {
        PickerRow {
            mark: self.mark@,
            name: self.name@,
            remote: self.remote@,
            room: self.room,
            selected: self.selected,
        }
    }
}

/// Several branches, by their views.
pub open spec fn branch_views(branches: Seq<Branch<String>>) -> Seq<Branch<Seq<char>>> {
    branches.map_values(|branch: Branch<String>| branch@)
}

/// Several rows, by their views.
pub open spec fn row_views(rows: Seq<PickerRow<String>>) -> Seq<PickerRow<Seq<char>>> {
    rows.map_values(|row: PickerRow<String>| row@)
}

impl<G> View for BranchPicker<G> {
    type V = PickerView<G>;

    open spec fn view(&self) -> PickerView<G> {
        PickerView {
            git: self.git,
            branches: branch_views(self.branches@),
            selected: self.selected as int,
            scroll: self.scroll as int,
            rect: self.rect,
        }
    }
}

/// `n` brought between zero and `most`.
pub open spec fn clamped(n: int, most: int) -> int {
    if n < 0 || most < 0 {
        0
    } else if n > most {
        most
    } else {
        n
    }
}

/// How many branches stand before the first checked-out one.
pub open spec fn before_current(branches: Seq<Branch<Seq<char>>>) -> int
    decreases branches.len(),
{
    if branches.len() == 0 || branches[0].current {
        0
    } else {
        1 + before_current(branches.drop_first())
    }
}

/// The place of the first checked-out branch; zero where there is none.
pub open spec fn current_place(branches: Seq<Branch<Seq<char>>>) -> int {
    if before_current(branches) < branches.len() {
        before_current(branches)
    } else {
        0
    }
}

/// The columns that a picker would like to have for one more branch, given those
/// for the others and those of the name.
pub open spec fn wider(others: int, name_width: int) -> int {
    if name_width + 13 > others {
        name_width + 13
    } else {
        others
    }
}

/// The columns that the picker would like to have: enough for every name with
/// its surroundings, and at least for its title.
pub open spec fn widest(branches: Seq<Branch<Seq<char>>>) -> int
    decreases branches.len(),
{
    if branches.len() == 0 {
        28
    } else {
        wider(widest(branches.drop_last()), column_width(branches.last().name) as int)
    }
}

impl<G> PickerView<G> {
    /// What every picker keeps: there is a branch, and the cursor is on one.
    pub open spec fn wf(self) -> bool {
        0 <= self.selected < self.branches.len()
    }

    /// The picker with the cursor on another branch, as close to `place` as
    /// there is one.
    pub open spec fn at(self, place: int) -> PickerView<G> {
        PickerView { selected: clamped(place, self.branches.len() - 1), ..self }
    }

    /// The picker after a key.
    pub open spec fn after_key(self, key: Key) -> PickerView<G> {
        match key {
            Key::Up => PickerView { selected: less(self.selected, 1), ..self },
            Key::Down => self.at(self.selected + 1),
            Key::Home => PickerView { selected: 0, ..self },
            Key::End => self.at(self.branches.len() - 1),
            Key::Char(c) => if c == 'k' {
                PickerView { selected: less(self.selected, 1), ..self }
            } else if c == 'j' {
                self.at(self.selected + 1)
            } else {
                self
            },
            _ => self,
        }
    }

    /// What is to be done after a key.
    pub open spec fn key_action(self, key: Key) -> PickerAction<Seq<char>> {
        if key == Key::Esc {
            PickerAction::Close
        } else if (key == Key::Enter || key == Key::Char(' ')) && self.selected
            < self.branches.len() {
            PickerAction::Checkout(self.branches[self.selected])
        } else {
            PickerAction::Stay
        }
    }

    /// The branch whose row covers a cell.
    pub open spec fn item_at(self, column: int, row: int) -> Option<int> {
        let inner = within(self.rect, 1);
        let place = self.scroll + (row - inner.y);
        if inner.covers(column, row) && place < self.branches.len() {
            Some(place)
        } else {
            None
        }
    }

    /// The picker after something that the mouse did.
    pub open spec fn after_mouse(self, mouse: MouseEvent) -> PickerView<G> {
        match mouse.kind {
            MouseKind::Moved => match self.item_at(mouse.column as int, mouse.row as int) {
                Some(place) => PickerView { selected: place, ..self },
                None => self,
            },
            MouseKind::ScrollUp => PickerView { selected: less(self.selected, 3), ..self },
            MouseKind::ScrollDown => self.at(self.selected + 3),
            _ => self,
        }
    }

    /// What is to be done after something that the mouse did: a click on a row
    /// switches to its branch, and a click outside closes the picker.
    pub open spec fn mouse_action(self, mouse: MouseEvent) -> PickerAction<Seq<char>> {
        if mouse.kind == MouseKind::LeftDown {
            match self.item_at(mouse.column as int, mouse.row as int) {
                Some(place) => PickerAction::Checkout(self.branches[place]),
                None => if self.rect.covers(mouse.column as int, mouse.row as int) {
                    PickerAction::Stay
                } else {
                    PickerAction::Close
                },
            }
        } else {
            PickerAction::Stay
        }
    }
}

/// The place of the first checked-out branch; zero where there is none.
pub fn starting_place(branches: &Vec<Branch<String>>) -> (place: usize)
    ensures
        place == current_place(branch_views(branches@)),
{
    let count: usize = branches.len();
    let ghost views = branch_views(branches@);
    let mut at: usize = 0;
    while at < count
        invariant
            count == branches@.len(),
            at <= count,
            views == branch_views(branches@),
            forall|i: int| 0 <= i < at ==> !(#[trigger] views[i]).current,
        decreases count - at,
    {
        assert(views[at as int] == branches@[at as int]@);
        if branches[at].current {
            proof {
                lemma_before_current(views, at as int);
            }
            return at;
        }
        at = at + 1;
    }
    proof {
        lemma_before_current(views, count as int);
    }
    0
}

proof fn lemma_before_current(branches: Seq<Branch<Seq<char>>>, at: int)
    requires
        0 <= at <= branches.len(),
        at < branches.len() ==> branches[at].current,
        forall|i: int| 0 <= i < at ==> !(#[trigger] branches[i]).current,
    ensures
        before_current(branches) == at,
    decreases branches.len(),
{
    if at > 0 {
        assert(!branches[0].current);
        let rest = branches.drop_first();
        assert forall|i: int| 0 <= i < at - 1 implies !(#[trigger] rest[i]).current by {
            assert(rest[i] == branches[i + 1]);
        }
        lemma_before_current(rest, at - 1);
    }
}

/// The text in front of a branch: the mark of the checked-out one, or blanks.
pub open spec fn mark_of(branch: Branch<Seq<char>>) -> Seq<char> {
    if branch.current {
        "✓ "@
    } else {
        "  "@
    }
}

/// The text behind a branch that is known from a remote only.
pub open spec fn remote_of(branch: Branch<Seq<char>>) -> Seq<char> {
    if branch.remote {
        "  remote"@
    } else {
        ""@
    }
}

/// The columns that are left for a name, given all columns and those of the texts
/// in front and behind.
pub open spec fn room_left(width: int, mark_width: int, remote_width: int) -> int {
    less(width, mark_width + remote_width + 1)
}

/// The columns that are left between a name and what stands behind it, given all
/// columns and those of the texts.
pub open spec fn padding_left(width: int, mark_width: int, shown_width: int, remote_width: int) -> int {
    less(width, mark_width + shown_width + remote_width)
}

/// Where a picker is drawn that would like to have `wanted` columns for `count`
/// branches, in a terminal of the size of `area`: in the middle, a third of the
/// way down, with a row for each branch if they fit.
pub open spec fn popup_at(wanted: int, count: int, area: Rect) -> Rect {
    let width = lesser(wanted % 0x1_0000, area.width as int);
    let height = lesser(lesser(count % 0x1_0000 + 2, area.height as int), 18);
    rect_at(
        (less(area.width as int, width) / 2) as u16,
        (less(area.height as int, height) / 3) as u16,
        width as u16,
        height as u16,
    )
}

/// The row of a branch, within the given columns.
pub open spec fn row_of(branch: Branch<Seq<char>>, width: int, selected: bool) -> PickerRow<Seq<char>> {
    let mark = mark_of(branch);
    let remote = remote_of(branch);
    PickerRow {
        mark,
        name: branch.name,
        remote,
        room: room_left(width, column_width(mark) as int, column_width(remote) as int) as usize,
        selected,
    }
}

/// The columns between a name, as it is shown, and what stands behind it.
pub open spec fn padding_of(row: PickerRow<Seq<char>>, shown: Seq<char>, width: int) -> int {
    padding_left(
        width,
        column_width(row.mark) as int,
        column_width(shown) as int,
        column_width(row.remote) as int,
    )
}

impl<G> PickerView<G> {
    /// Where the picker is drawn in a terminal of the size of `area`.
    pub open spec fn popup_in(self, area: Rect) -> Rect {
        popup_at(widest(self.branches), self.branches.len() as int, area)
    }

    /// The rows that fit between the borders of a rectangle, given the branch in
    /// the first of them.
    pub open spec fn rows_in(self, popup: Rect, scroll: int) -> Seq<PickerRow<Seq<char>>> {
        let visible = less(popup.height as int, 2);
        let left = less(self.branches.len() as int, scroll);
        Seq::new(
            lesser(left, visible) as nat,
            |i: int|
                row_of(
                    self.branches[scroll + i],
                    less(popup.width as int, 2),
                    scroll + i == self.selected,
                ),
        )
    }
}

/// The columns that are left for a name, given all columns and those of the texts
/// in front and behind.
pub fn room_for(width: usize, mark_width: usize, remote_width: usize) -> (room: usize)
    ensures
        room == room_left(width as int, mark_width as int, remote_width as int),
{
    width.saturating_sub(mark_width.saturating_add(remote_width).saturating_add(1))
}

/// The columns that are left between a name and what stands behind it, given all
/// columns and those of the texts.
pub fn padding_for(
    width: usize,
    mark_width: usize,
    shown_width: usize,
    remote_width: usize,
) -> (columns: usize)
    ensures
        columns == padding_left(
            width as int,
            mark_width as int,
            shown_width as int,
            remote_width as int,
        ),
{
    width.saturating_sub(mark_width.saturating_add(shown_width).saturating_add(remote_width))
}

/// The row of a branch, within the given columns.
pub fn picker_row(branch: &Branch<String>, width: usize, selected: bool) -> (row: PickerRow<String>)
    ensures
        row@ == row_of(branch@, width as int, selected),
{
    let mark: &str = if branch.current {
        "✓ "
    } else {
        "  "
    };
    let remote: &str = if branch.remote {
        "  remote"
    } else {
        ""
    };
    PickerRow {
        mark: mark.to_owned(),
        name: branch.name.clone(),
        remote: remote.to_owned(),
        room: room_for(width, text_width(mark), text_width(remote)),
        selected,
    }
}

impl PickerRow<String> {
    /// The columns between the name, as it is shown, and what stands behind it.
    pub fn padding(&self, shown: &str, width: usize) -> (columns: usize)
        ensures
            columns == padding_of(self@, shown@, width as int),
    {
        padding_for(
            width,
            text_width(self.mark.as_str()),
            text_width(shown),
            text_width(self.remote.as_str()),
        )
    }
}

/// The columns that a picker would like to have for one more branch, given those
/// for the others and those of the name.
pub fn wanted_for(others: u128, name_width: usize) -> (wanted: u128)
    ensures
        wanted == wider(others as int, name_width as int),
{
    let this: u128 = name_width as u128 + 13;
    if this > others {
        this
    } else {
        others
    }
}

/// The columns that a picker over `branches` would like to have.
fn wanted_width(branches: &Vec<Branch<String>>) -> (width: u128)
    ensures
        width == widest(branch_views(branches@)),
{
    let count: usize = branches.len();
    let ghost views = branch_views(branches@);
    let mut width: u128 = 28;
    let mut at: usize = 0;
    assert(views.take(0) =~= Seq::empty());
    while at < count
        invariant
            count == branches@.len(),
            at <= count,
            views == branch_views(branches@),
            width == widest(views.take(at as int)),
        decreases count - at,
    {
        width = wanted_for(width, text_width(branches[at].name.as_str()));
        proof {
            assert(views.take(at + 1).drop_last() =~= views.take(at as int));
            assert(views.take(at + 1).last() == branches@[at as int]@);
        }
        at = at + 1;
    }
    assert(views.take(count as int) =~= views);
    width
}

/// The branch at a place, as it is known to callers.
fn branch_at(branches: &Vec<Branch<String>>, place: usize) -> (branch: Branch<String>)
    requires
        place < branches@.len(),
    ensures
        branch@ == branch_views(branches@)[place as int],
{
    branches[place].clone()
}

impl<G> BranchPicker<G> {
    /// Opens a picker over the branches that a repository offers, with the
    /// cursor on the checked-out one. Without branches there is nothing to pick.
    pub fn open(git: G, choices: Result<Vec<Branch<String>>, String>) -> (opened: Result<Self, String>)
        ensures
            match (choices, opened) {
                (Err(message), Err(error)) => error == message,
                (Ok(branches), Err(error)) => branches@.len() == 0 && error@
                    == "no branches found"@,
                (Ok(branches), Ok(picker)) => {
                    &&& branches@.len() > 0
                    &&& picker@ == (PickerView {
                        git,
                        branches: branch_views(branches@),
                        selected: current_place(branch_views(branches@)),
                        scroll: 0,
                        rect: Rect { x: 0, y: 0, width: 0, height: 0 },
                    })
                    &&& picker@.wf()
                },
                (Err(_), Ok(_)) => false,
            },
    {
        let branches: Vec<Branch<String>> = match choices {
            Ok(branches) => branches,
            Err(message) => {
                return Err(message);
            },
        };
        if branches.len() == 0 {
            return Err("no branches found".to_owned());
        }
        let selected: usize = starting_place(&branches);
        proof {
            lemma_current_place_bounds(branch_views(branches@));
        }
        Ok(BranchPicker { git, branches, selected, scroll: 0, rect: Rect::default() })
    }

    /// Moves the cursor down, as far as there are branches.
    fn down(&mut self, by: usize)
        ensures
            final(self)@ == old(self)@.at(old(self)@.selected + by),
    {
        let most: usize = self.branches.len().saturating_sub(1);
        let place: usize = self.selected.saturating_add(by);
        self.selected = if place < most {
            place
        } else {
            most
        };
    }

    /// Moves the cursor up, as far as there are branches.
    fn up(&mut self, by: usize)
        ensures
            final(self)@ == (PickerView {
                selected: less(old(self)@.selected, by as int),
                ..old(self)@
            }),
    {
        self.selected = self.selected.saturating_sub(by);
    }

    /// Takes in a key.
    pub fn key(&mut self, key: Key) -> (action: PickerAction<String>)
        ensures
            final(self)@ == old(self)@.after_key(key),
            action@ == old(self)@.key_action(key),
            old(self)@.wf() ==> final(self)@.wf(),
    {
        match key {
            Key::Esc => PickerAction::Close,
            Key::Up | Key::Char('k') => {
                self.up(1);
                PickerAction::Stay
            },
            Key::Down | Key::Char('j') => {
                self.down(1);
                PickerAction::Stay
            },
            Key::Home => {
                self.selected = 0;
                PickerAction::Stay
            },
            Key::End => {
                self.selected = self.branches.len().saturating_sub(1);
                PickerAction::Stay
            },
            Key::Enter | Key::Char(' ') => if self.selected < self.branches.len() {
                PickerAction::Checkout(branch_at(&self.branches, self.selected))
            } else {
                PickerAction::Stay
            },
            _ => PickerAction::Stay,
        }
    }

    /// The branch whose row covers a cell.
    fn item(&self, column: u16, row: u16) -> (found: Option<usize>)
        ensures
            match found {
                Some(place) => self@.item_at(column as int, row as int) == Some(place as int)
                    && place < self.branches@.len(),
                None => self@.item_at(column as int, row as int) is None,
            },
    {
        let inner = inner_rect(self.rect, 1);
        if !hits(inner, column, row) {
            return None;
        }
        let count: usize = self.branches.len();
        match self.scroll.checked_add((row - inner.y) as usize) {
            Some(place) => if place < count {
                Some(place)
            } else {
                None
            },
            None => None,
        }
    }

    /// Takes in something that the mouse did.
    pub fn mouse(&mut self, mouse: MouseEvent) -> (action: PickerAction<String>)
        ensures
            final(self)@ == old(self)@.after_mouse(mouse),
            action@ == old(self)@.mouse_action(mouse),
            old(self)@.wf() ==> final(self)@.wf(),
    {
        match mouse.kind {
            MouseKind::Moved => {
                if let Some(place) = self.item(mouse.column, mouse.row) {
                    self.selected = place;
                }
                PickerAction::Stay
            },
            MouseKind::ScrollUp => {
                self.up(3);
                PickerAction::Stay
            },
            MouseKind::ScrollDown => {
                self.down(3);
                PickerAction::Stay
            },
            MouseKind::LeftDown => match self.item(mouse.column, mouse.row) {
                Some(place) => PickerAction::Checkout(branch_at(&self.branches, place)),
                None => if hits(self.rect, mouse.column, mouse.row) {
                    PickerAction::Stay
                } else {
                    PickerAction::Close
                },
            },
            MouseKind::Other => PickerAction::Stay,
        }
    }
}

/// The rows between the borders of a picker.
pub fn visible_rows(popup: Rect) -> (rows: usize)
    ensures
        rows == less(popup.height as int, 2),
{
    popup.height.saturating_sub(2) as usize
}

/// The columns between the borders of a picker.
pub fn inner_width(popup: Rect) -> (columns: usize)
    ensures
        columns == less(popup.width as int, 2),
{
    popup.width.saturating_sub(2) as usize
}

/// The lesser of two coordinates.
fn lesser_of(a: u16, b: u16) -> (least: u16)
    ensures
        least == lesser(a as int, b as int),
{
    if a < b {
        a
    } else {
        b
    }
}

/// Where a picker is drawn that would like to have `wanted` columns for `count`
/// branches, in a terminal of the size of `area`. Sizes are counted in sixteen
/// bits, and the borders must still fit in the count.
pub fn popup_for(wanted: u128, count: usize, area: Rect) -> (popup: Rect)
    requires
        count % 0x1_0000 + 2 < 0x1_0000,
    ensures
        popup == popup_at(wanted as int, count as int, area),
{
    let width: u16 = lesser_of((wanted % 0x1_0000) as u16, area.width);
    let tall: u16 = (count % 0x1_0000) as u16 + 2;
    let height: u16 = lesser_of(lesser_of(tall, area.height), 18);
    new_rect((area.width - width) / 2, (area.height - height) / 3, width, height)
}

impl<G> BranchPicker<G> {
    /// Where the picker is drawn in a terminal of the size of `area`. Sizes are
    /// counted in sixteen bits, and the borders must still fit in the count.
    pub fn popup(&self, area: Rect) -> (popup: Rect)
        requires
            self.branches@.len() % 0x1_0000 + 2 < 0x1_0000,
        ensures
            popup == self@.popup_in(area),
    {
        popup_for(wanted_width(&self.branches), self.branches.len(), area)
    }

    /// Lays the picker out in a terminal of the size of `area`, with the branch
    /// at `scroll` in the first row, and says what its rows hold. The picker
    /// remembers where it is and what its rows show.
    pub fn draw(&mut self, area: Rect, scroll: usize) -> (rows: Vec<PickerRow<String>>)
        requires
            old(self).branches@.len() % 0x1_0000 + 2 < 0x1_0000,
        ensures
            final(self)@ == (PickerView {
                scroll: scroll as int,
                rect: old(self)@.popup_in(area),
                ..old(self)@
            }),
            row_views(rows@) == old(self)@.rows_in(old(self)@.popup_in(area), scroll as int),
            old(self)@.wf() ==> final(self)@.wf(),
    {
        let popup = self.popup(area);
        self.rect = popup;
        self.scroll = scroll;
        let count: usize = self.branches.len();
        let visible: usize = visible_rows(popup);
        let width: usize = inner_width(popup);
        let left: usize = count.saturating_sub(scroll);
        let shown: usize = if left < visible {
            left
        } else {
            visible
        };
        let ghost expected = self@.rows_in(popup, scroll as int);
        let mut rows: Vec<PickerRow<String>> = Vec::new();
        let mut at: usize = 0;
        while at < shown
            invariant
                at <= shown,
                shown == expected.len(),
                scroll + shown <= count || shown == 0,
                count == self.branches@.len(),
                width == less(popup.width as int, 2),
                expected == self@.rows_in(popup, scroll as int),
                row_views(rows@) == expected.take(at as int),
            decreases shown - at,
        {
            let place: usize = scroll + at;
            let ghost before = rows@;
            let row = picker_row(&self.branches[place], width, place == self.selected);
            proof {
                assert(self@.branches[place as int] == self.branches@[place as int]@);
                assert(row@ == expected[at as int]);
            }
            rows.push(row);
            proof {
                assert(row_views(rows@) =~= row_views(before).push(row@));
                assert(expected.take(at + 1) =~= expected.take(at as int).push(
                    expected[at as int],
                ));
            }
            at = at + 1;
        }
        proof {
            assert(expected.take(shown as int) =~= expected);
            assert(expected =~= old(self)@.rows_in(popup, scroll as int));
        }
        rows
    }
}

/// The place of the checked-out branch is a place among the branches, and a
/// checked-out branch is there if there is one at all.
pub proof fn lemma_current_place_bounds(branches: Seq<Branch<Seq<char>>>)
    requires
        branches.len() > 0,
    ensures
        0 <= current_place(branches) < branches.len(),
        (exists|i: int| 0 <= i < branches.len() && (#[trigger] branches[i]).current)
            ==> branches[current_place(branches)].current,
{
    lemma_before_current_bounds(branches);
}

proof fn lemma_before_current_bounds(branches: Seq<Branch<Seq<char>>>)
    ensures
        0 <= before_current(branches) <= branches.len(),
        before_current(branches) < branches.len() ==> branches[before_current(branches)].current,
        before_current(branches) == branches.len() ==> forall|i: int|
            0 <= i < branches.len() ==> !(#[trigger] branches[i]).current,
    decreases branches.len(),
{
    if branches.len() > 0 && !branches[0].current {
        let rest = branches.drop_first();
        lemma_before_current_bounds(rest);
        if before_current(branches) == branches.len() {
            assert forall|i: int| 0 <= i < branches.len() implies !(#[trigger] branches[i]).current by {
                if i > 0 {
                    assert(rest[i - 1] == branches[i]);
                }
            }
        }
    }
}

/// The picker never leaves the terminal, and is never taller than its limit.
pub proof fn lemma_popups_fit<G>(picker: PickerView<G>, area: Rect)
    ensures
        (Rect { x: 0, y: 0, width: area.width, height: area.height }).encloses(
            picker.popup_in(area),
        ),
        picker.popup_in(area).height <= 18,
{
    lemma_widest(picker.branches);
    let width = lesser(widest(picker.branches) % 0x1_0000, area.width as int);
    assert(0 <= width <= area.width);
}

proof fn lemma_widest(branches: Seq<Branch<Seq<char>>>)
    ensures
        widest(branches) >= 28,
        forall|i: int|
            0 <= i < branches.len() ==> column_width((#[trigger] branches[i]).name) + 13 <= widest(
                branches,
            ),
    decreases branches.len(),
{
    if branches.len() > 0 {
        lemma_widest(branches.drop_last());
        assert forall|i: int| 0 <= i < branches.len() implies column_width(
            (#[trigger] branches[i]).name,
        ) + 13 <= widest(branches) by {
            if i < branches.len() - 1 {
                assert(branches.drop_last()[i] == branches[i]);
            }
        }
    }
}

/// The picker is as wide as its widest name with its surroundings, and at least
/// wide enough for its title, as far as the terminal is. Names that take tens of
/// thousands of columns are beyond the count of columns.
pub proof fn lemma_popups_are_wide_enough<G>(picker: PickerView<G>, area: Rect, place: int)
    requires
        widest(picker.branches) < 0x1_0000,
        0 <= place < picker.branches.len(),
    ensures
        picker.popup_in(area).width >= lesser(28, area.width as int),
        picker.popup_in(area).width >= lesser(
            column_width(picker.branches[place].name) + 13,
            area.width as int,
        ),
{
    lemma_widest(picker.branches);
}

/// Every key and everything that the mouse does leaves the cursor on a branch.
pub proof fn lemma_the_cursor_stays_on_a_branch<G>(picker: PickerView<G>, key: Key, mouse: MouseEvent)
    requires
        picker.wf(),
        picker.scroll >= 0,
    ensures
        picker.after_key(key).wf(),
        picker.after_mouse(mouse).wf(),
{
}

/// Nothing but drawing changes the branches, the rows or the place of a picker.
pub proof fn lemma_events_move_only_the_cursor<G>(picker: PickerView<G>, key: Key, mouse: MouseEvent)
    ensures
        picker.after_key(key) == (PickerView {
            selected: picker.after_key(key).selected,
            ..picker
        }),
        picker.after_mouse(mouse) == (PickerView {
            selected: picker.after_mouse(mouse).selected,
            ..picker
        }),
{
}

/// Up undoes down, and down undoes up, except at the ends of the list.
pub proof fn lemma_up_and_down_are_inverse<G>(picker: PickerView<G>)
    requires
        picker.wf(),
    ensures
        picker.selected + 1 < picker.branches.len() ==> picker.after_key(Key::Down).after_key(
            Key::Up,
        ) == picker,
        picker.selected > 0 ==> picker.after_key(Key::Up).after_key(Key::Down) == picker,
        picker.selected + 1 == picker.branches.len() ==> picker.after_key(Key::Down) == picker,
        picker.selected == 0 ==> picker.after_key(Key::Up) == picker,
{
}

/// A click on a row does what moving there and pressing enter does.
pub proof fn lemma_clicks_pick_what_they_point_at<G>(picker: PickerView<G>, column: u16, row: u16)
    requires
        picker.item_at(column as int, row as int) is Some,
    ensures
        ({
            let hover = MouseEvent { kind: MouseKind::Moved, column, row };
            let click = MouseEvent { kind: MouseKind::LeftDown, column, row };
            picker.mouse_action(click) == picker.after_mouse(hover).key_action(Key::Enter)
        }),
{
}

/// The row under the mouse shows the branch that a click there picks: the rows
/// that were drawn and the rows that are pointed at are the same.
pub proof fn lemma_rows_show_what_clicks_pick<G>(picker: PickerView<G>, column: int, row: int)
    requires
        picker.scroll >= 0,
        picker.rect.valid(),
        picker.item_at(column, row) is Some,
    ensures
        ({
            let place = picker.item_at(column, row)->0;
            let rows = picker.rows_in(picker.rect, picker.scroll);
            let at = row - within(picker.rect, 1).y;
            0 <= at < rows.len() && rows[at].name == picker.branches[place].name
        }),
{
}

/// A row takes all the columns it is given, as long as the name is shown in the
/// room there is for it, and a blank at least parts it from what stands behind.
pub proof fn lemma_rows_fill_their_width(
    branch: Branch<Seq<char>>,
    width: usize,
    selected: bool,
    shown: Seq<char>,
)
    requires
        column_width(mark_of(branch)) + column_width(remote_of(branch)) + 1 <= width,
        column_width(shown) <= row_of(branch, width as int, selected).room,
    ensures
        ({
            let row = row_of(branch, width as int, selected);
            let padding = padding_of(row, shown, width as int);
            &&& padding >= 1
            &&& column_width(row.mark) + column_width(shown) + padding + column_width(row.remote)
                == width
        }),
{
}

/// One row at most shows the cursor.
pub proof fn lemma_one_row_shows_the_cursor<G>(
    picker: PickerView<G>,
    popup: Rect,
    scroll: int,
    i: int,
    j: int,
)
    requires
        0 <= i < picker.rows_in(popup, scroll).len(),
        0 <= j < picker.rows_in(popup, scroll).len(),
        picker.rows_in(popup, scroll)[i].selected,
        picker.rows_in(popup, scroll)[j].selected,
    ensures
        i == j,
{
}

/// The arrows, and the letters that stand for them, move the cursor by one branch
/// as long as there is one; the ends of the list stop it. The other two keys that
/// move it go to the ends at once.
pub proof fn lemma_keys_move_the_cursor<G>(picker: PickerView<G>)
    requires
        picker.wf(),
    ensures
        ({
            let place = picker.selected;
            let last = picker.branches.len() - 1;
            &&& place < last ==> picker.after_key(Key::Down).selected == place + 1
            &&& place == last ==> picker.after_key(Key::Down).selected == place
            &&& place > 0 ==> picker.after_key(Key::Up).selected == place - 1
            &&& place == 0 ==> picker.after_key(Key::Up).selected == place
            &&& picker.after_key(Key::Home).selected == 0
            &&& picker.after_key(Key::End).selected == last
            &&& picker.after_key(Key::Char('j')) == picker.after_key(Key::Down)
            &&& picker.after_key(Key::Char('k')) == picker.after_key(Key::Up)
        }),
{
}

/// No other key moves the cursor.
pub proof fn lemma_other_keys_leave_the_cursor<G>(picker: PickerView<G>, key: Key)
    requires
        !(key is Up || key is Down || key is Home || key is End),
        key != Key::Char('j'),
        key != Key::Char('k'),
    ensures
        picker.after_key(key) == picker,
{
}

/// Escape closes the picker, and nothing else on the keyboard does. Enter and the
/// space bar switch to the branch under the cursor, and nothing else on the
/// keyboard switches.
pub proof fn lemma_keys_close_or_pick<G>(picker: PickerView<G>, key: Key)
    requires
        picker.wf(),
    ensures
        picker.key_action(key) is Close <==> key is Esc,
        picker.key_action(key) is Checkout <==> key is Enter || key == Key::Char(' '),
        picker.key_action(key) is Checkout ==> picker.key_action(key)->0
            == picker.branches[picker.selected],
{
}

/// A notch of the wheel moves the cursor by three branches where there are three,
/// and to the end of the list otherwise.
pub proof fn lemma_the_wheel_moves_by_three<G>(picker: PickerView<G>, column: u16, row: u16)
    requires
        picker.wf(),
    ensures
        ({
            let place = picker.selected;
            let last = picker.branches.len() - 1;
            let up = picker.after_mouse(MouseEvent { kind: MouseKind::ScrollUp, column, row });
            let down = picker.after_mouse(MouseEvent { kind: MouseKind::ScrollDown, column, row });
            &&& place >= 3 ==> up.selected == place - 3
            &&& place < 3 ==> up.selected == 0
            &&& place + 3 <= last ==> down.selected == place + 3
            &&& place + 3 > last ==> down.selected == last
        }),
{
}

/// The wheel is turned back by turning it the other way, wherever the end of the
/// list did not stop it. A notch does what the arrow does in three steps.
pub proof fn lemma_the_wheel_turns_back<G>(picker: PickerView<G>, column: u16, row: u16)
    requires
        picker.wf(),
    ensures
        ({
            let up = MouseEvent { kind: MouseKind::ScrollUp, column, row };
            let down = MouseEvent { kind: MouseKind::ScrollDown, column, row };
            &&& picker.selected + 3 < picker.branches.len() ==> picker.after_mouse(
                down,
            ).after_mouse(up) == picker
            &&& picker.selected >= 3 ==> picker.after_mouse(up).after_mouse(down) == picker
            &&& picker.after_mouse(up) == picker.after_key(Key::Up).after_key(Key::Up).after_key(
                Key::Up,
            )
            &&& picker.after_mouse(down) == picker.after_key(Key::Down).after_key(
                Key::Down,
            ).after_key(Key::Down)
        }),
{
}

/// The mouse points at a branch if and only if it is inside the border, on a row
/// that has one: the branch in the first row, and one further on for each row
/// below it.
pub proof fn lemma_rows_count_from_the_first<G>(
    picker: PickerView<G>,
    column: int,
    row: int,
    place: int,
)
    requires
        picker.rect.valid(),
    ensures
        picker.item_at(column, row) == Some(place) <==> {
            &&& picker.rect.x < column < picker.rect.x + picker.rect.width - 1
            &&& picker.rect.y < row < picker.rect.y + picker.rect.height - 1
            &&& place == picker.scroll + (row - picker.rect.y - 1)
            &&& place < picker.branches.len()
        },
{
}

/// The cursor follows the mouse onto the branch that it points at. A click there
/// switches to that branch, and does not move the cursor by itself.
pub proof fn lemma_the_mouse_picks_what_it_points_at<G>(
    picker: PickerView<G>,
    column: u16,
    row: u16,
    place: int,
)
    requires
        picker.item_at(column as int, row as int) == Some(place),
    ensures
        ({
            let hover = MouseEvent { kind: MouseKind::Moved, column, row };
            let click = MouseEvent { kind: MouseKind::LeftDown, column, row };
            &&& picker.after_mouse(hover).selected == place
            &&& picker.mouse_action(click) == PickerAction::Checkout(picker.branches[place])
            &&& picker.after_mouse(click) == picker
        }),
{
}

/// Where the mouse points at no branch, moving it changes nothing, and a click
/// closes the picker if and only if it is outside, border and all.
pub proof fn lemma_the_mouse_beside_the_rows<G>(picker: PickerView<G>, column: u16, row: u16)
    requires
        picker.item_at(column as int, row as int) is None,
    ensures
        ({
            let hover = MouseEvent { kind: MouseKind::Moved, column, row };
            let click = MouseEvent { kind: MouseKind::LeftDown, column, row };
            let inside = picker.rect.x <= column < picker.rect.x + picker.rect.width
                && picker.rect.y <= row < picker.rect.y + picker.rect.height;
            &&& picker.after_mouse(hover) == picker
            &&& picker.after_mouse(click) == picker
            &&& inside ==> picker.mouse_action(click) is Stay
            &&& !inside ==> picker.mouse_action(click) is Close
        }),
{
}

/// Only a click picks a branch or closes the picker, and only moving and the wheel
/// move the cursor.
pub proof fn lemma_only_clicks_act<G>(picker: PickerView<G>, mouse: MouseEvent)
    ensures
        !(mouse.kind is LeftDown) ==> picker.mouse_action(mouse) is Stay,
        mouse.kind is LeftDown || mouse.kind is Other ==> picker.after_mouse(mouse) == picker,
{
}

/// The cursor starts on the first checked-out branch, and on the first branch
/// where none is checked out.
pub proof fn lemma_pickers_start_on_the_current_branch(
    branches: Seq<Branch<Seq<char>>>,
    place: int,
)
    requires
        0 <= place < branches.len(),
    ensures
        branches[place].current && (forall|i: int|
            0 <= i < place ==> !(#[trigger] branches[i]).current) ==> current_place(branches)
            == place,
        (forall|i: int| 0 <= i < branches.len() ==> !(#[trigger] branches[i]).current)
            ==> current_place(branches) == 0,
{
    if branches[place].current && forall|i: int|
        0 <= i < place ==> !(#[trigger] branches[i]).current {
        lemma_before_current(branches, place);
    }
    if forall|i: int| 0 <= i < branches.len() ==> !(#[trigger] branches[i]).current {
        lemma_before_current(branches, branches.len() as int);
    }
}

/// The picker would like to have room for its title and for every name with its
/// surroundings, and for no more than that.
pub proof fn lemma_pickers_want_what_their_names_need(branches: Seq<Branch<Seq<char>>>)
    ensures
        widest(branches) >= 28,
        forall|i: int|
            0 <= i < branches.len() ==> widest(branches) >= column_width(
                (#[trigger] branches[i]).name,
            ) + 13,
        widest(branches) == 28 || exists|i: int|
            0 <= i < branches.len() && widest(branches) == column_width(
                (#[trigger] branches[i]).name,
            ) + 13,
    decreases branches.len(),
{
    lemma_widest(branches);
    if branches.len() > 0 {
        let others = branches.drop_last();
        lemma_pickers_want_what_their_names_need(others);
        if widest(branches) == widest(others) {
            if widest(others) != 28 {
                let i = choose|i: int|
                    0 <= i < others.len() && widest(others) == column_width(
                        (#[trigger] others[i]).name,
                    ) + 13;
                assert(branches[i] == others[i]);
            }
        } else {
            assert(widest(branches) == column_width(branches[branches.len() - 1].name) + 13);
        }
    }
}

/// A picker gets the columns that it would like to have and a row for each branch
/// between its borders, as far as the terminal and its limit of rows allow. What
/// is left of the terminal is parted evenly to its left and right, and one to two
/// above and below it.
pub proof fn lemma_popups_get_what_they_want(wanted: int, count: int, area: Rect)
    requires
        0 <= wanted < 0x1_0000,
        0 <= count < 0xfffe,
    ensures
        ({
            let popup = popup_at(wanted, count, area);
            &&& wanted <= area.width ==> popup.width == wanted
            &&& wanted > area.width ==> popup.width == area.width
            &&& count + 2 <= area.height && count + 2 <= 18 ==> popup.height == count + 2
            &&& area.height <= count + 2 && area.height <= 18 ==> popup.height == area.height
            &&& 18 <= area.height && 18 <= count + 2 ==> popup.height == 18
            &&& 2 * popup.x <= area.width - popup.width <= 2 * popup.x + 1
            &&& 3 * popup.y <= area.height - popup.height <= 3 * popup.y + 2
        }),
{
    assert(wanted % 0x1_0000 == wanted);
    assert(count % 0x1_0000 == count);
}

/// The columns and the branches are counted in sixteen bits.
pub proof fn lemma_popups_count_in_sixteen_bits(wanted: int, count: int, area: Rect)
    requires
        wanted >= 0,
        count >= 0,
    ensures
        popup_at(wanted + 0x1_0000, count, area) == popup_at(wanted, count, area),
        popup_at(wanted, count + 0x1_0000, area) == popup_at(wanted, count, area),
{
}

/// The rows show the branches from the first row on, in order and without a gap,
/// until the rows or the branches run out. Each has the name of its branch, the
/// mark if that is checked out, the word behind it if it is remote only, and the
/// cursor if it is there.
pub proof fn lemma_rows_show_the_branches<G>(
    picker: PickerView<G>,
    popup: Rect,
    scroll: int,
    at: int,
)
    requires
        scroll >= 0,
    ensures
        ({
            let rows = picker.rows_in(popup, scroll);
            let branch = picker.branches[scroll + at];
            &&& 0 <= at < rows.len() <==> 0 <= at && at + 2 < popup.height && scroll + at
                < picker.branches.len()
            &&& 0 <= at < rows.len() ==> {
                &&& rows[at].name == branch.name
                &&& branch.current ==> rows[at].mark == "✓ "@
                &&& !branch.current ==> rows[at].mark == "  "@
                &&& branch.remote ==> rows[at].remote == "  remote"@
                &&& !branch.remote ==> rows[at].remote == ""@
                &&& rows[at].selected <==> scroll + at == picker.selected
            }
        }),
{
}

/// A name has the columns between the borders, without those of the mark, those of
/// what stands behind it, and one more; none where they do not suffice. What the
/// name as it is shown leaves of them is padding.
pub proof fn lemma_rows_share_their_columns<G>(
    picker: PickerView<G>,
    popup: Rect,
    scroll: int,
    at: int,
    shown: Seq<char>,
)
    requires
        scroll >= 0,
        0 <= at < picker.rows_in(popup, scroll).len(),
        popup.width >= 2,
    ensures
        ({
            let row = picker.rows_in(popup, scroll)[at];
            let width = popup.width - 2;
            let around = column_width(row.mark) + column_width(row.remote);
            let padding = padding_of(row, shown, width);
            &&& around + 1 <= width ==> row.room + around + 1 == width
            &&& around + 1 > width ==> row.room == 0
            &&& around + column_width(shown) <= width ==> padding + around + column_width(shown)
                == width
            &&& around + column_width(shown) > width ==> padding == 0
        }),
{
}

/// The columns of a row are shared out in full: those that are left for a name,
/// with one more and those around it, make up the width, and so do the padding and
/// all that is shown. Where they do not suffice, nothing is left.
pub proof fn lemma_columns_are_shared_out(
    width: int,
    mark_width: int,
    shown_width: int,
    remote_width: int,
)
    ensures
        mark_width + remote_width + 1 <= width ==> mark_width + room_left(
            width,
            mark_width,
            remote_width,
        ) + remote_width + 1 == width,
        mark_width + remote_width + 1 > width ==> room_left(width, mark_width, remote_width) == 0,
        mark_width + shown_width + remote_width <= width ==> mark_width + shown_width + padding_left(
            width,
            mark_width,
            shown_width,
            remote_width,
        ) + remote_width == width,
        mark_width + shown_width + remote_width > width ==> padding_left(
            width,
            mark_width,
            shown_width,
            remote_width,
        ) == 0,
{
}

/// One more branch makes a picker as wide as its name with its surroundings needs,
/// and never narrower.
pub proof fn lemma_one_more_branch_widens(others: int, name_width: int)
    ensures
        wider(others, name_width) >= others,
        wider(others, name_width) >= name_width + 13,
        wider(others, name_width) == others || wider(others, name_width) == name_width + 13,
{
}

/// A row has the name of its branch and its marks whatever its width, and leaves
/// the name what these leave of the width.
pub proof fn lemma_rows_fit_any_width(branch: Branch<Seq<char>>, width: usize, selected: bool)
    ensures
        ({
            let row = row_of(branch, width as int, selected);
            let around = column_width(row.mark) + column_width(row.remote);
            &&& row.name == branch.name
            &&& row.mark == if branch.current {
                "✓ "@
            } else {
                "  "@
            }
            &&& row.remote == if branch.remote {
                "  remote"@
            } else {
                ""@
            }
            &&& row.selected == selected
            &&& around + 1 <= width ==> row.room + around + 1 == width
            &&& around + 1 > width ==> row.room == 0
        }),
{
}

/// A picker stands where one stands that would like to have as many columns, for as
/// many branches. Two pickers of the same kind stand in the same place.
pub proof fn lemma_popups_are_for_all_branches<G>(
    picker: PickerView<G>,
    other: PickerView<G>,
    area: Rect,
)
    requires
        widest(picker.branches) < 0x1_0000,
        picker.branches.len() < 0xfffe,
    ensures
        widest(other.branches) % 0x1_0000 == widest(picker.branches) && other.branches.len() % 0x1_0000
            == picker.branches.len() ==> other.popup_in(area) == picker.popup_in(area),
        ({
            let popup = picker.popup_in(area);
            let wanted = widest(picker.branches);
            let tall = picker.branches.len() + 2;
            &&& popup.width == wanted || (popup.width == area.width && wanted > area.width)
            &&& popup.height == tall || (popup.height == area.height && tall > area.height) || (
            popup.height == 18 && tall > 18)
            &&& 2 * popup.x <= area.width - popup.width <= 2 * popup.x + 1
            &&& 3 * popup.y <= area.height - popup.height <= 3 * popup.y + 2
        }),
{
    lemma_widest(picker.branches);
    lemma_popups_get_what_they_want(
        widest(picker.branches),
        picker.branches.len() as int,
        area,
    );
}

} // verus!

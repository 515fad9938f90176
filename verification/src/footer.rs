//! The line at the foot of the sidebar: the branch, and how it stands to its
//! upstream.

use vstd::prelude::*;

use crate::geometry::{column_width, hits, lesser, new_rect, rect_at, text_width, Rect};
use crate::text::{
    decimal, lemma_cuts_are_at_the_first_mark, lemma_numbers_are_read_back, number_in, to_decimal,
};

verus! {

/// The sets of icons.
#[derive(Clone, Copy, Debug, PartialEq, Eq, Structural)]
pub enum IconTheme {
    Emoji,
    Material,
}

/// The frames of the spinner.
pub const SYNC_FRAMES: [&'static str; 8] = ["⠋", "⠙", "⠹", "⠸", "⠼", "⠴", "⠦", "⠧"];

/// How long a frame of the spinner lasts, in milliseconds.
pub const SYNC_FRAME_MILLIS: u128 = 120;

/// The state of a repository, as far as the footer shows it. `S` is the kind of
/// text: `String` in a program, a sequence of characters in a contract.
#[derive(Debug, PartialEq, Eq)]
pub struct Status<S> {
    pub branch: S,
    pub has_upstream: bool,
    pub behind: u64,
    pub ahead: u64,
}

/// The two buttons of the footer.
#[derive(Clone, Copy, Debug, PartialEq, Eq, Structural)]
pub struct FooterZones {
    pub branch: Rect,
    pub sync: Rect,
}

/// The footer as it is to be drawn.
#[derive(Debug, PartialEq, Eq)]
pub struct Footer<S> {
    pub branch_text: S,
    pub sync_text: S,
    pub zones: FooterZones,
    pub branch_hovered: bool,
    pub sync_hovered: bool,
}

impl Default for FooterZones {
    fn default() -> (zones: Self)
        ensures
            zones.branch == (Rect { x: 0, y: 0, width: 0, height: 0 }),
            zones.sync == (Rect { x: 0, y: 0, width: 0, height: 0 }),
    {
        FooterZones { branch: Rect::default(), sync: Rect::default() }
    }
}

impl View for Status<String> {
    type V = Status<Seq<char>>;

    open spec fn view(&self) -> Status<Seq<char>> {
        Status {
            branch: self.branch@,
            has_upstream: self.has_upstream,
            behind: self.behind,
            ahead: self.ahead,
        }
    }
}

impl View for Footer<String> {
    type V = Footer<Seq<char>>;

    open spec fn view(&self) -> Footer<Seq<char>> {
        Footer {
            branch_text: self.branch_text@,
            sync_text: self.sync_text@,
            zones: self.zones,
            branch_hovered: self.branch_hovered,
            sync_hovered: self.sync_hovered,
        }
    }
}

/// The icon that stands for synchronising.
pub open spec fn sync_icon_of(theme: IconTheme) -> Seq<char> {
    match theme {
        IconTheme::Emoji => "⟳"@,
        IconTheme::Material => "\u{ea77}"@,
    }
}

/// The frame that the spinner shows at a time.
pub open spec fn frame_at(millis: int) -> Seq<char> {
    SYNC_FRAMES[(millis / SYNC_FRAME_MILLIS as int) % 8]@
}

/// Whether `glyph` can show: the icon while nothing is under way, and otherwise
/// the spinner at some time.
pub open spec fn may_show(theme: IconTheme, syncing: bool, glyph: Seq<char>) -> bool {
    if syncing {
        exists|millis: u128| glyph == #[trigger] frame_at(millis as int)
    } else {
        glyph == sync_icon_of(theme)
    }
}

/// `std::time::SystemTime`, a reading of the clock. It is only carried along.
#[verifier::external_type_specification]
#[verifier::external_body]
pub struct ExSystemTime(std::time::SystemTime);

/// `std::time::SystemTimeError`, which says that the clock runs behind. It is
/// only carried along.
#[verifier::external_type_specification]
#[verifier::external_body]
pub struct ExSystemTimeError(std::time::SystemTimeError);

/// `std::time::SystemTime::now` reads the clock. Nothing is claimed of what it
/// says.
pub assume_specification[ std::time::SystemTime::now ]() -> std::time::SystemTime
;

/// `std::time::SystemTime::duration_since` measures from one reading of the
/// clock to another, or says that they are the other way round. Nothing is
/// claimed of which.
pub assume_specification[ std::time::SystemTime::duration_since ](
    time: &std::time::SystemTime,
    earlier: std::time::SystemTime,
) -> Result<std::time::Duration, std::time::SystemTimeError>
;

/// `std::time::Duration::as_millis` counts the whole milliseconds of a
/// duration. Durations have no contents here, so nothing is claimed of how many.
pub assume_specification[ std::time::Duration::as_millis ](duration: &std::time::Duration) -> u128
;

/// The constant `std::time::UNIX_EPOCH`, as a time.
#[verifier::external_body]
fn unix_epoch() -> std::time::SystemTime {
    std::time::UNIX_EPOCH
}

/// The icon that stands for synchronising.
pub fn sync_icon(theme: IconTheme) -> (icon: &'static str)
    ensures
        icon@ == sync_icon_of(theme),
{
    match theme {
        IconTheme::Emoji => "⟳",
        IconTheme::Material => "\u{ea77}",
    }
}

/// The frame that the spinner shows at a time.
pub fn sync_frame(elapsed: u128) -> (frame: &'static str)
    ensures
        frame@ == frame_at(elapsed as int),
{
    let turn: u128 = (elapsed / SYNC_FRAME_MILLIS) % 8;
    SYNC_FRAMES[turn as usize]
}

/// The frame that the spinner shows after the time that the clock measures. A
/// clock that runs behind measures none, and then the spinner is at its start.
pub fn frame_for(elapsed: Option<u128>) -> (frame: &'static str)
    ensures
        frame@ == frame_at(
            match elapsed {
                Some(millis) => millis as int,
                None => 0,
            },
        ),
{
    match elapsed {
        Some(millis) => sync_frame(millis),
        None => sync_frame(0),
    }
}

/// The glyph of the synchronise button: the icon, or the spinner while a
/// synchronisation is under way.
pub fn sync_glyph(theme: IconTheme, syncing: bool) -> (glyph: &'static str)
    ensures
        may_show(theme, syncing, glyph@),
{
    if !syncing {
        return sync_icon(theme);
    }
    let now = std::time::SystemTime::now();
    let elapsed: Option<u128> = match now.duration_since(unix_epoch()) {
        Ok(duration) => Some(duration.as_millis()),
        Err(_) => None,
    };
    frame_for(elapsed)
}

/// The text of the branch button.
pub open spec fn branch_text_of(icon: Seq<char>, branch: Seq<char>) -> Seq<char> {
    " "@ + icon + " "@ + branch + " "@
}

/// The text of the synchronise button: with an upstream, how many commits the
/// branch is behind and ahead of it.
pub open spec fn sync_text_of(glyph: Seq<char>, status: Status<Seq<char>>) -> Seq<char> {
    if status.has_upstream {
        glyph + " "@ + decimal(status.behind as nat) + "↓ "@ + decimal(status.ahead as nat) + "↑"@
    } else {
        glyph
    }
}

/// The columns of the synchronise button: all that its text takes, as far as
/// the area has them.
pub open spec fn sync_columns(area: Rect, sync_width: int) -> int {
    lesser(sync_width, area.width as int)
}

/// The columns of the branch button: what its text takes, as far as the
/// synchronise button leaves them.
pub open spec fn branch_columns(area: Rect, branch_width: int, sync_width: int) -> int {
    lesser(branch_width, area.width - sync_columns(area, sync_width))
}

/// Where the buttons stand, given the columns that their texts take: side by side
/// on one line, the branch button first.
pub open spec fn zones_at(area: Rect, branch_width: int, sync_width: int) -> FooterZones {
    let sync = sync_columns(area, sync_width);
    let branch = branch_columns(area, branch_width, sync_width);
    FooterZones {
        branch: rect_at(area.x, area.y, branch as u16, 1),
        sync: rect_at((area.x + branch) as u16, area.y, sync as u16, 1),
    }
}

/// Whether the branch button ends at a column that can be told, given the columns
/// that the texts take.
pub open spec fn room_at(area: Rect, branch_width: int, sync_width: int) -> bool {
    area.x + branch_columns(area, branch_width, sync_width) <= u16::MAX
}

/// Where the buttons stand, given their texts.
pub open spec fn zones_of(area: Rect, branch_text: Seq<char>, sync_text: Seq<char>) -> FooterZones {
    zones_at(area, column_width(branch_text) as int, column_width(sync_text) as int)
}

/// Whether the branch button ends at a column that can be told.
pub open spec fn has_place(
    area: Rect,
    branch_icon: Seq<char>,
    glyph: Seq<char>,
    status: Status<Seq<char>>,
) -> bool {
    room_at(
        area,
        column_width(branch_text_of(branch_icon, status.branch)) as int,
        column_width(sync_text_of(glyph, status)) as int,
    )
}

/// Whether the mouse is known to be over a rectangle.
pub open spec fn hovered(rect: Rect, mouse: Option<(u16, u16)>) -> bool {
    match mouse {
        Some((column, row)) => rect.covers(column as int, row as int),
        None => false,
    }
}

/// The footer with the given icons.
pub open spec fn footer_of(
    area: Rect,
    branch_icon: Seq<char>,
    glyph: Seq<char>,
    status: Status<Seq<char>>,
    mouse: Option<(u16, u16)>,
) -> Footer<Seq<char>> {
    let branch_text = branch_text_of(branch_icon, status.branch);
    let sync_text = sync_text_of(glyph, status);
    let zones = zones_of(area, branch_text, sync_text);
    Footer {
        branch_text,
        sync_text,
        zones,
        branch_hovered: hovered(zones.branch, mouse),
        sync_hovered: hovered(zones.sync, mouse),
    }
}

/// Whether the mouse is known to be over a rectangle.
fn is_hovered(rect: Rect, mouse: Option<(u16, u16)>) -> (hover: bool)
    ensures
        hover == hovered(rect, mouse),
{
    match mouse {
        Some((column, row)) => hits(rect, column, row),
        None => false,
    }
}

/// A number of columns, as far as there is room for them.
fn fitted(width: usize, room: u16) -> (fitted: u16)
    ensures
        fitted == lesser(width as int, room as int),
{
    if width < room as usize {
        width as u16
    } else {
        room
    }
}

/// Where the buttons stand, given the columns that their texts take; none where
/// the branch button would reach past the last column that can be told.
pub fn zones_for(area: Rect, branch_width: usize, sync_width: usize) -> (zones: Option<FooterZones>)
    ensures
        match zones {
            Some(zones) => room_at(area, branch_width as int, sync_width as int) && zones
                == zones_at(area, branch_width as int, sync_width as int),
            None => !room_at(area, branch_width as int, sync_width as int),
        },
{
    let sync: u16 = fitted(sync_width, area.width);
    let branch: u16 = fitted(branch_width, area.width - sync);
    match area.x.checked_add(branch) {
        Some(sync_x) => Some(
            FooterZones {
                branch: new_rect(area.x, area.y, branch, 1),
                sync: new_rect(sync_x, area.y, sync, 1),
            },
        ),
        None => None,
    }
}

/// The footer with the given icons; none where the branch button would reach
/// past the last column that can be told.
pub fn git_footer(
    area: Rect,
    branch_icon: &str,
    glyph: &str,
    status: &Status<String>,
    mouse: Option<(u16, u16)>,
) -> (footer: Option<Footer<String>>)
    ensures
        match footer {
            Some(footer) => has_place(area, branch_icon@, glyph@, status@) && footer@ == footer_of(
                area,
                branch_icon@,
                glyph@,
                status@,
                mouse,
            ),
            None => !has_place(area, branch_icon@, glyph@, status@),
        },
{
    let mut branch_text: String = " ".to_owned();
    branch_text.append(branch_icon);
    branch_text.append(" ");
    branch_text.append(status.branch.as_str());
    branch_text.append(" ");
    let mut sync_text: String = glyph.to_owned();
    if status.has_upstream {
        sync_text.append(" ");
        sync_text.append(to_decimal(status.behind).as_str());
        sync_text.append("↓ ");
        sync_text.append(to_decimal(status.ahead).as_str());
        sync_text.append("↑");
    }
    match zones_for(area, text_width(branch_text.as_str()), text_width(sync_text.as_str())) {
        Some(zones) => Some(
            Footer {
                branch_text,
                sync_text,
                zones,
                branch_hovered: is_hovered(zones.branch, mouse),
                sync_hovered: is_hovered(zones.sync, mouse),
            },
        ),
        None => None,
    }
}

/// The footer, with the glyph that the synchronise button shows now; none where
/// the branch button would reach past the last column that can be told.
pub fn draw_git_footer(
    area: Rect,
    theme: IconTheme,
    branch_icon: &str,
    status: &Status<String>,
    syncing: bool,
    mouse: Option<(u16, u16)>,
) -> (footer: Option<Footer<String>>)
    ensures
        exists|glyph: Seq<char>|
            {
                &&& #[trigger] may_show(theme, syncing, glyph)
                &&& match footer {
                    Some(footer) => has_place(area, branch_icon@, glyph, status@) && footer@
                        == footer_of(area, branch_icon@, glyph, status@, mouse),
                    None => !has_place(area, branch_icon@, glyph, status@),
                }
            },
{
    let glyph: &'static str = sync_glyph(theme, syncing);
    git_footer(area, branch_icon, glyph, status, mouse)
}

/// The buttons never leave the footer's area, do not overlap, and the branch
/// button ends where the synchronise button begins.
pub proof fn lemma_buttons_fit(area: Rect, branch_text: Seq<char>, sync_text: Seq<char>)
    requires
        area.valid(),
        area.height > 0,
    ensures
        area.encloses(zones_of(area, branch_text, sync_text).branch),
        area.encloses(zones_of(area, branch_text, sync_text).sync),
        zones_of(area, branch_text, sync_text).branch.x + zones_of(
            area,
            branch_text,
            sync_text,
        ).branch.width == zones_of(area, branch_text, sync_text).sync.x,
{
}

/// An area that ends at a column that can be told always has a place for the
/// footer.
pub proof fn lemma_proper_areas_have_a_footer(
    area: Rect,
    branch_icon: Seq<char>,
    glyph: Seq<char>,
    status: Status<Seq<char>>,
)
    requires
        area.valid(),
    ensures
        has_place(area, branch_icon, glyph, status),
{
}

/// The mouse is over one button at most.
pub proof fn lemma_one_button_hovers(
    area: Rect,
    branch_icon: Seq<char>,
    glyph: Seq<char>,
    status: Status<Seq<char>>,
    mouse: Option<(u16, u16)>,
)
    requires
        has_place(area, branch_icon, glyph, status),
    ensures
        ({
            let footer = footer_of(area, branch_icon, glyph, status, mouse);
            !(footer.branch_hovered && footer.sync_hovered)
        }),
{
}

/// The spinner goes through its frames over and over.
pub proof fn lemma_the_spinner_turns(millis: int)
    requires
        millis >= 0,
    ensures
        frame_at(millis + 8 * SYNC_FRAME_MILLIS as int) == frame_at(millis),
{
    assert((millis + 960) / 120 == millis / 120 + 8) by (nonlinear_arith);
}

/// Each frame of the spinner shows for the same time.
pub proof fn lemma_frames_last_equally_long(turn: int, within: int)
    requires
        turn >= 0,
        0 <= within < SYNC_FRAME_MILLIS,
    ensures
        frame_at(turn * SYNC_FRAME_MILLIS as int + within) == SYNC_FRAMES[turn % 8]@,
{
    assert((turn * 120 + within) / 120 == turn) by (nonlinear_arith)
        requires
            0 <= within < 120,
    ;
}

/// Whether a text is a number in decimal: digits that stand for it, without a
/// leading zero.
pub open spec fn spells(text: Seq<char>, n: u64) -> bool {
    &&& number_in(text) == n
    &&& text.len() > 0
    &&& forall|i: int| 0 <= i < text.len() ==> '0' as int <= #[trigger] text[i] as int <= '9' as int
    &&& text[0] == '0' ==> text.len() == 1
}

/// With an upstream the synchronise button shows its glyph, then how many commits
/// the branch is behind, with an arrow down, then how many it is ahead, with an
/// arrow up.
pub proof fn lemma_the_synchronise_button_tells_both_counts(
    area: Rect,
    branch_icon: Seq<char>,
    glyph: Seq<char>,
    status: Status<Seq<char>>,
    mouse: Option<(u16, u16)>,
)
    requires
        status.has_upstream,
    ensures
        exists|behind: Seq<char>, ahead: Seq<char>|
            {
                &&& #[trigger] spells(behind, status.behind)
                &&& #[trigger] spells(ahead, status.ahead)
                &&& footer_of(area, branch_icon, glyph, status, mouse).sync_text == glyph + " "@
                    + behind + "↓ "@ + ahead + "↑"@
            },
{
    lemma_numbers_are_read_back(status.behind as nat);
    lemma_numbers_are_read_back(status.ahead as nat);
    assert(spells(decimal(status.behind as nat), status.behind));
    assert(spells(decimal(status.ahead as nat), status.ahead));
}

/// Nobody can take one pair of counts for another: where two synchronise buttons
/// with the same glyph show the same text, the branches are as far behind, and as
/// far ahead.
pub proof fn lemma_equal_buttons_tell_equal_counts(
    area: Rect,
    branch_icon: Seq<char>,
    glyph: Seq<char>,
    one: Status<Seq<char>>,
    other: Status<Seq<char>>,
)
    requires
        one.has_upstream,
        other.has_upstream,
        footer_of(area, branch_icon, glyph, one, None).sync_text == footer_of(
            area,
            branch_icon,
            glyph,
            other,
            None,
        ).sync_text,
    ensures
        one.behind == other.behind,
        one.ahead == other.ahead,
{
    let (a, b) = (decimal(one.behind as nat), decimal(one.ahead as nat));
    let (c, d) = (decimal(other.behind as nat), decimal(other.ahead as nat));
    lemma_numbers_are_read_back(one.behind as nat);
    lemma_numbers_are_read_back(one.ahead as nat);
    lemma_numbers_are_read_back(other.behind as nat);
    lemma_numbers_are_read_back(other.ahead as nat);
    reveal_strlit(" ");
    reveal_strlit("↓ ");
    reveal_strlit("↑");
    let text = glyph + " "@ + a + "↓ "@ + b + "↑"@;
    assert(text == glyph + " "@ + c + "↓ "@ + d + "↑"@);
    let counts = text.skip(glyph.len() as int + 1);
    let after_one = " "@ + b + "↑"@;
    let after_other = " "@ + d + "↑"@;
    assert(counts =~= a + seq!['↓'] + after_one);
    assert(counts =~= c + seq!['↓'] + after_other);
    assert(!a.contains('↓'));
    assert(!c.contains('↓'));
    lemma_cuts_are_at_the_first_mark(counts, '↓', a, after_one);
    lemma_cuts_are_at_the_first_mark(counts, '↓', c, after_other);
    assert(a == c);
    assert(after_one == after_other);
    assert(b =~= after_one.subrange(1, after_one.len() - 1));
    assert(d =~= after_other.subrange(1, after_other.len() - 1));
}

/// Without an upstream there is nothing to count, and the synchronise button is
/// its glyph. The branch button always shows its icon and the branch, with a
/// blank on each side and between them.
pub proof fn lemma_the_buttons_show_their_icons(
    area: Rect,
    branch_icon: Seq<char>,
    glyph: Seq<char>,
    status: Status<Seq<char>>,
    mouse: Option<(u16, u16)>,
)
    ensures
        !status.has_upstream ==> footer_of(area, branch_icon, glyph, status, mouse).sync_text
            == glyph,
        footer_of(area, branch_icon, glyph, status, mouse).branch_text == " "@ + branch_icon + " "@
            + status.branch + " "@,
{
}

/// The buttons of a footer stand where their own texts need them, and there is a
/// footer if and only if there is room for those.
pub proof fn lemma_the_buttons_are_as_wide_as_their_texts(
    area: Rect,
    branch_icon: Seq<char>,
    glyph: Seq<char>,
    status: Status<Seq<char>>,
    mouse: Option<(u16, u16)>,
)
    ensures
        ({
            let footer = footer_of(area, branch_icon, glyph, status, mouse);
            let branch_width = column_width(footer.branch_text) as int;
            let sync_width = column_width(footer.sync_text) as int;
            &&& footer.zones == zones_at(area, branch_width, sync_width)
            &&& has_place(area, branch_icon, glyph, status) <==> room_at(
                area,
                branch_width,
                sync_width,
            )
        }),
{
}

/// The synchronise button is served first: it gets its columns, as far as the area
/// has them, and the branch button gets its own, as far as they are left.
pub proof fn lemma_the_synchronise_button_is_served_first(
    area: Rect,
    branch_width: int,
    sync_width: int,
)
    requires
        area.valid(),
        branch_width >= 0,
        sync_width >= 0,
    ensures
        ({
            let zones = zones_at(area, branch_width, sync_width);
            &&& branch_width + sync_width <= area.width ==> zones.branch.width == branch_width
                && zones.sync.width == sync_width
            &&& sync_width <= area.width < branch_width + sync_width ==> zones.sync.width
                == sync_width && zones.branch.width + zones.sync.width == area.width
            &&& sync_width > area.width ==> zones.sync.width == area.width && zones.branch.width
                == 0
        }),
{
}

/// The buttons stand side by side on the first line of the area, from its left
/// edge on. There is no place for them if and only if the branch button would end
/// past the last column.
pub proof fn lemma_the_buttons_stand_side_by_side(area: Rect, branch_width: int, sync_width: int)
    requires
        branch_width >= 0,
        sync_width >= 0,
    ensures
        ({
            let zones = zones_at(area, branch_width, sync_width);
            let left = if sync_width < area.width {
                area.width - sync_width
            } else {
                0
            };
            let branch = if branch_width < left {
                branch_width
            } else {
                left
            };
            let sync = if sync_width < area.width {
                sync_width
            } else {
                area.width as int
            };
            &&& room_at(area, branch_width, sync_width) <==> area.x + branch <= u16::MAX
            &&& room_at(area, branch_width, sync_width) ==> {
                &&& zones.branch.x == area.x
                &&& zones.branch.y == area.y
                &&& zones.branch.width == branch
                &&& zones.sync.x == area.x + branch
                &&& zones.sync.y == area.y
                &&& zones.sync.x + sync <= u16::MAX ==> zones.sync.width == sync
                &&& zones.sync.x + sync > u16::MAX ==> zones.sync.x + zones.sync.width == u16::MAX
                &&& area.y < u16::MAX ==> zones.branch.height == 1 && zones.sync.height == 1
                &&& area.y == u16::MAX ==> zones.branch.height == 0 && zones.sync.height == 0
            }
        }),
{
}

/// A button is hovered if and only if the mouse is known to be on one of its cells.
pub proof fn lemma_the_hovered_button_is_under_the_mouse(
    area: Rect,
    branch_icon: Seq<char>,
    glyph: Seq<char>,
    status: Status<Seq<char>>,
    column: u16,
    row: u16,
)
    ensures
        ({
            let nowhere = footer_of(area, branch_icon, glyph, status, None);
            let footer = footer_of(area, branch_icon, glyph, status, Some((column, row)));
            let (branch, sync) = (footer.zones.branch, footer.zones.sync);
            &&& !nowhere.branch_hovered && !nowhere.sync_hovered
            &&& nowhere.zones == footer.zones
            &&& footer.branch_hovered <==> branch.x <= column < branch.x + branch.width && branch.y
                <= row < branch.y + branch.height
            &&& footer.sync_hovered <==> sync.x <= column < sync.x + sync.width && sync.y <= row
                < sync.y + sync.height
        }),
{
}

/// The synchronise button shows its icon while nothing is under way, and a frame
/// of the spinner otherwise; every frame has its turn.
pub proof fn lemma_the_spinner_shows_while_syncing(theme: IconTheme, glyph: Seq<char>)
    ensures
        may_show(theme, false, glyph) <==> glyph == match theme {
            IconTheme::Emoji => "⟳"@,
            IconTheme::Material => "\u{ea77}"@,
        },
        may_show(theme, true, glyph) <==> exists|turn: int|
            0 <= turn < 8 && glyph == #[trigger] SYNC_FRAMES[turn]@,
{
    if may_show(theme, true, glyph) {
        let millis = choose|millis: u128| glyph == #[trigger] frame_at(millis as int);
        assert(glyph == SYNC_FRAMES[(millis as int / 120) % 8]@);
    }
    if exists|turn: int| 0 <= turn < 8 && glyph == #[trigger] SYNC_FRAMES[turn]@ {
        let turn = choose|turn: int| 0 <= turn < 8 && glyph == #[trigger] SYNC_FRAMES[turn]@;
        lemma_frames_last_equally_long(turn, 0);
        let millis = (turn * 120) as u128;
        assert(glyph == frame_at(millis as int));
    }
}

} // verus!

use herdr_sidebar::footer::{
    draw_git_footer, frame_for, git_footer, sync_frame, sync_glyph, zones_for, FooterZones, IconTheme,
    Status, SYNC_FRAMES,
};
use herdr_sidebar::geometry::{hits, Rect};
use herdr_sidebar::picker::{
    inner_width, padding_for, picker_row, popup_for, room_for, visible_rows, wanted_for, Branch, BranchPicker, Key, MouseEvent, MouseKind,
    PickerAction,
};

fn branch(name: &str, current: bool, remote: bool) -> Branch<String> {
    Branch {
        name: name.to_string(),
        current,
        remote,
    }
}

fn picker() -> BranchPicker<&'static str> {
    let branches = vec![
        branch("dev", false, false),
        branch("main", true, false),
        branch("old", false, false),
        branch("origin/new", false, true),
        branch("zzz", false, false),
    ];
    BranchPicker::open(".", Ok(branches)).unwrap()
}

fn at(kind: MouseKind, column: u16, row: u16) -> MouseEvent {
    MouseEvent { kind, column, row }
}

fn area(width: u16, height: u16) -> Rect {
    Rect {
        x: 0,
        y: 0,
        width,
        height,
    }
}

#[test]
fn picker_starts_on_current_branch() {
    let picker = picker();
    assert!(picker.branches[picker.selected].current);
}

#[test]
fn sync_glyph_restores_refresh_icon_when_idle() {
    assert_eq!(sync_glyph(IconTheme::Emoji, false), "⟳");
    assert_eq!(sync_glyph(IconTheme::Material, false), "\u{ea77}");
    assert!(SYNC_FRAMES.contains(&sync_glyph(IconTheme::Material, true)));
}

#[test]
fn the_spinner_turns() {
    for (at, frame) in SYNC_FRAMES.iter().enumerate() {
        let start = at as u128 * 120;
        assert_eq!(sync_frame(start), *frame);
        assert_eq!(sync_frame(start + 119), *frame);
        assert_eq!(sync_frame(start + 960), *frame);
    }
    assert_eq!(sync_frame(u128::MAX), SYNC_FRAMES[((u128::MAX / 120) % 8) as usize]);
}

#[test]
fn a_picker_needs_branches() {
    let none: Result<BranchPicker<u8>, String> = BranchPicker::open(0, Ok(vec![]));
    assert_eq!(none.unwrap_err(), "no branches found");
    let failed: Result<BranchPicker<u8>, String> =
        BranchPicker::open(0, Err("not a repository".to_string()));
    assert_eq!(failed.unwrap_err(), "not a repository");
    let detached = BranchPicker::open(0, Ok(vec![branch("a", false, false)])).unwrap();
    assert_eq!(detached.selected, 0);
}

#[test]
fn keys_move_the_cursor() {
    let mut picker = picker();
    assert_eq!(picker.selected, 1);
    assert_eq!(picker.key(Key::Down), PickerAction::Stay);
    assert_eq!(picker.selected, 2);
    assert_eq!(picker.key(Key::Char('j')), PickerAction::Stay);
    assert_eq!(picker.selected, 3);
    picker.key(Key::Up);
    picker.key(Key::Char('k'));
    assert_eq!(picker.selected, 1);
    picker.key(Key::End);
    assert_eq!(picker.selected, 4);
    picker.key(Key::Down);
    assert_eq!(picker.selected, 4);
    picker.key(Key::Home);
    assert_eq!(picker.selected, 0);
    picker.key(Key::Up);
    assert_eq!(picker.selected, 0);
    assert_eq!(picker.key(Key::Esc), PickerAction::Close);
    assert_eq!(picker.key(Key::Char('x')), PickerAction::Stay);
    assert_eq!(picker.key(Key::Other), PickerAction::Stay);
    let dev = PickerAction::Checkout(branch("dev", false, false));
    assert_eq!(picker.key(Key::Enter), dev);
    assert_eq!(picker.key(Key::Char(' ')), dev);
}

#[test]
fn a_picker_stands_in_the_middle() {
    let mut picker = picker();
    let rows = picker.draw(area(80, 30), 0);
    assert_eq!(
        picker.rect,
        Rect {
            x: 26,
            y: 7,
            width: 28,
            height: 7
        }
    );
    assert_eq!(rows.len(), 5);
    assert_eq!(rows[1].mark, "✓ ");
    assert!(rows[1].selected);
    assert_eq!(rows[0].mark, "  ");
    assert!(!rows[0].selected);
    assert_eq!(rows[3].remote, "  remote");
    assert_eq!(rows[3].room, 26 - 2 - 8 - 1);
    assert_eq!(rows[0].room, 26 - 2 - 1);
    assert_eq!(rows[3].padding("origin/new", 26), 26 - 2 - 10 - 8);
    assert_eq!(rows[3].padding("a name that is far too long to fit", 26), 0);
}

#[test]
fn wide_names_widen_the_picker() {
    let name = "漢".repeat(20);
    let picker = BranchPicker::open((), Ok(vec![branch(&name, true, false)])).unwrap();
    assert_eq!(picker.popup(area(100, 30)).width, 53);
    assert_eq!(picker.popup(area(40, 30)).width, 40);
    assert_eq!(picker.popup(area(40, 2)).height, 2);
    let row = picker_row(&picker.branches[0], 51, true);
    assert_eq!(row.room, 48);
    assert_eq!(row.padding(&name, 51), 9);
}

#[test]
fn long_lists_scroll() {
    let branches = (0..40)
        .map(|n| branch(&format!("b{n}"), n == 30, false))
        .collect();
    let mut picker = BranchPicker::open((), Ok(branches)).unwrap();
    assert_eq!(picker.selected, 30);
    let rows = picker.draw(area(80, 60), 20);
    assert_eq!(picker.rect.height, 18);
    assert_eq!(rows.len(), 16);
    assert_eq!(rows[0].name, "b20");
    assert!(rows[10].selected);
    assert_eq!(picker.draw(area(80, 60), 35).len(), 5);
    assert!(picker.draw(area(80, 60), 90).is_empty());
    assert!(picker.draw(area(80, 1), 0).is_empty());
}

#[test]
fn the_mouse_points_at_rows() {
    let mut picker = picker();
    picker.draw(area(80, 30), 1);
    // The first row is the branch that the rows start with.
    assert_eq!(picker.mouse(at(MouseKind::Moved, 30, 8)), PickerAction::Stay);
    assert_eq!(picker.selected, 1);
    picker.mouse(at(MouseKind::Moved, 30, 10));
    assert_eq!(picker.selected, 3);
    // The border and the row behind the last branch are nothing.
    picker.mouse(at(MouseKind::Moved, 26, 9));
    picker.mouse(at(MouseKind::Moved, 30, 12));
    assert_eq!(picker.selected, 3);
    let click = picker.mouse(at(MouseKind::LeftDown, 30, 10));
    assert_eq!(click, picker.key(Key::Enter));
    assert_eq!(
        click,
        PickerAction::Checkout(branch("origin/new", false, true))
    );
    assert_eq!(
        picker.mouse(at(MouseKind::LeftDown, 26, 7)),
        PickerAction::Stay
    );
    assert_eq!(
        picker.mouse(at(MouseKind::LeftDown, 25, 7)),
        PickerAction::Close
    );
    assert_eq!(picker.mouse(at(MouseKind::Other, 25, 7)), PickerAction::Stay);
    picker.mouse(at(MouseKind::ScrollUp, 0, 0));
    assert_eq!(picker.selected, 0);
    picker.mouse(at(MouseKind::ScrollDown, 0, 0));
    assert_eq!(picker.selected, 3);
    picker.mouse(at(MouseKind::ScrollDown, 0, 0));
    assert_eq!(picker.selected, 4);
}

#[test]
fn an_undrawn_picker_has_no_rows() {
    let mut picker = picker();
    assert_eq!(
        picker.mouse(at(MouseKind::LeftDown, 0, 0)),
        PickerAction::Close
    );
    assert_eq!(picker.rect, Rect::default());
}

#[test]
fn rectangles_are_hit_inside() {
    let rect = Rect {
        x: 2,
        y: 3,
        width: 4,
        height: 1,
    };
    assert!(hits(rect, 2, 3));
    assert!(hits(rect, 5, 3));
    assert!(!hits(rect, 6, 3));
    assert!(!hits(rect, 1, 3));
    assert!(!hits(rect, 2, 4));
    let edge = Rect {
        x: 65530,
        y: 0,
        width: 5,
        height: 1,
    };
    assert!(hits(edge, 65534, 0));
    assert!(!hits(edge, 65535, 0));
}

fn status(has_upstream: bool) -> Status<String> {
    Status {
        branch: "main".to_string(),
        has_upstream,
        behind: 12,
        ahead: 0,
    }
}

#[test]
fn the_footer_shows_branch_and_upstream() {
    let line = Rect {
        x: 3,
        y: 9,
        width: 40,
        height: 1,
    };
    let footer = git_footer(line, "B", "S", &status(true), Some((12, 9))).unwrap();
    assert_eq!(footer.branch_text, " B main ");
    assert_eq!(footer.sync_text, "S 12↓ 0↑");
    assert_eq!(
        footer.zones,
        FooterZones {
            branch: Rect {
                x: 3,
                y: 9,
                width: 8,
                height: 1
            },
            sync: Rect {
                x: 11,
                y: 9,
                width: 8,
                height: 1
            },
        }
    );
    assert!(footer.sync_hovered);
    assert!(!footer.branch_hovered);
    let footer = git_footer(line, "B", "S", &status(false), None).unwrap();
    assert_eq!(footer.sync_text, "S");
    assert_eq!(footer.zones.sync.width, 1);
    assert!(!footer.sync_hovered);
}

#[test]
fn the_synchronise_button_comes_first_where_room_is_short() {
    let line = Rect {
        x: 65530,
        y: 65535,
        width: 5,
        height: 0,
    };
    let footer = git_footer(line, "B", "S", &status(true), None).unwrap();
    assert_eq!(footer.zones.sync.width, 5);
    assert_eq!(footer.zones.sync.height, 0);
    assert_eq!(footer.zones.branch.width, 0);
    assert_eq!(FooterZones::default().branch, Rect::default());
}

#[test]
fn the_footer_shows_the_glyph_of_the_moment() {
    let line = area(40, 1);
    let idle = draw_git_footer(line, IconTheme::Emoji, "B", &status(false), false, None).unwrap();
    assert_eq!(idle.sync_text, "⟳");
    let busy = draw_git_footer(line, IconTheme::Emoji, "B", &status(false), true, None).unwrap();
    assert!(SYNC_FRAMES.contains(&busy.sync_text.as_str()));
}

#[test]
fn the_footer_needs_a_place_for_the_branch() {
    let beyond = Rect {
        x: 65535,
        y: 0,
        width: 10,
        height: 1,
    };
    // The synchronise button leaves the branch two columns.
    assert_eq!(git_footer(beyond, "B", "S", &status(true), None), None);
    // It leaves the branch none where it takes all of them.
    let narrow = Rect { width: 8, ..beyond };
    let footer = git_footer(narrow, "B", "S", &status(true), None).unwrap();
    assert_eq!(footer.zones.branch.width, 0);
    assert_eq!(footer.zones.sync.x, 65535);
    assert_eq!(footer.zones.sync.width, 0);
    let none = draw_git_footer(beyond, IconTheme::Emoji, "B", &status(false), false, None);
    assert_eq!(none, None);
}

#[test]
fn borders_take_two_rows_and_two_columns() {
    assert_eq!(visible_rows(area(40, 10)), 8);
    assert_eq!(inner_width(area(40, 10)), 38);
    assert_eq!(visible_rows(area(1, 1)), 0);
    assert_eq!(inner_width(area(1, 1)), 0);
}

#[test]
fn a_clock_that_runs_behind_stops_the_spinner_at_its_start() {
    assert_eq!(frame_for(None), SYNC_FRAMES[0]);
    assert_eq!(frame_for(Some(0)), SYNC_FRAMES[0]);
    assert_eq!(frame_for(Some(240)), sync_frame(240));
    assert_eq!(frame_for(Some(240)), SYNC_FRAMES[2]);
}

#[test]
fn popups_stand_in_the_middle_a_third_of_the_way_down() {
    let popup = popup_for(41, 5, area(101, 40));
    assert_eq!(
        popup,
        Rect {
            x: 30,
            y: 11,
            width: 41,
            height: 7
        }
    );
    // They are never taller than their limit, nor larger than the terminal.
    assert_eq!(popup_for(41, 100, area(101, 40)).height, 18);
    assert_eq!(popup_for(41, 100, area(20, 10)), area(20, 10));
    // Sizes are counted in sixteen bits.
    assert_eq!(popup_for(65536 + 3, 65536, area(101, 40)).width, 3);
    assert_eq!(popup_for(65536 + 3, 65536, area(101, 40)).height, 2);
    assert_eq!(popup_for(28, 65533, area(101, 40)).height, 18);
}

#[test]
fn names_are_given_room_beside_their_surroundings() {
    assert_eq!(wanted_for(28, 15), 28);
    assert_eq!(wanted_for(28, 16), 29);
    assert_eq!(room_for(30, 2, 8), 19);
    assert_eq!(room_for(10, 2, 8), 0);
    assert_eq!(room_for(usize::MAX, usize::MAX, 1), 0);
    assert_eq!(padding_for(30, 2, 10, 8), 10);
    assert_eq!(padding_for(20, 2, 10, 9), 0);
}

#[test]
fn zones_follow_the_widths_of_the_texts() {
    let line = Rect {
        x: 3,
        y: 9,
        width: 20,
        height: 1,
    };
    let zones = zones_for(line, 8, 6).unwrap();
    assert_eq!(
        zones.branch,
        Rect {
            width: 8,
            ..line
        }
    );
    assert_eq!(
        zones.sync,
        Rect {
            x: 11,
            width: 6,
            ..line
        }
    );
    let tight = zones_for(line, 100, 6).unwrap();
    assert_eq!((tight.branch.width, tight.sync.width), (14, 6));
    let full = zones_for(line, 100, 100).unwrap();
    assert_eq!((full.branch.width, full.sync.width), (0, 20));
    let last = Rect { x: 65535, ..line };
    assert_eq!(zones_for(last, 1, 0), None);
    assert_eq!(zones_for(last, 0, 1).unwrap().sync.width, 0);
}

use touchhle::ui43::{
    intercept_fast, ui43_callsite, ui43_class_hit, ui43_is_kind, ui43_lr_in_wl, ui43_may_stretch,
    ui43_offset_x, FastRegs, FastSel, FastStep, Ui43,
};

const WIDE: u32 = 1366;

fn chain(names: &[&str]) -> Vec<String> {
    names.iter().map(|n| n.to_string()).collect()
}

fn regs() -> FastRegs {
    FastRegs { r0: 10, r1: 11, r2: 12, r3: 13, sp: 14, lr: 0 }
}

#[test]
fn panels_move_by_half_the_extra_width() {
    assert_eq!(ui43_offset_x(1366), 342);
    assert_eq!(ui43_offset_x(1024), 0);
    assert_eq!(ui43_offset_x(480), 0);
    assert_eq!(ui43_offset_x(16_777_217), 16_776_192);
    for height in [0, 1025, 1026, 16_777_219, 123_456_789, 4_294_967_295] {
        let off = ((height as f32 - 1024.0) / 2.0).max(0.0);
        assert_eq!(ui43_offset_x(height) as f32 / 2.0, off);
    }
}

#[test]
fn panel_code_is_known() {
    assert!(ui43_callsite(0xb468) && ui43_callsite(0x435a72));
    assert!(!ui43_callsite(0xb469) && !ui43_callsite(0));
    assert!(!ui43_lr_in_wl(0));
}

#[test]
fn panel_classes_are_found_in_the_chain() {
    assert!(ui43_class_hit(&chain(&["AcceptFriendsLayer"])));
    assert!(ui43_class_hit(&chain(&["a", "b", "c", "d", "e", "AcceptFriendsLayer"])));
    assert!(!ui43_class_hit(&chain(&["a", "b", "c", "d", "e", "f", "AcceptFriendsLayer"])));
    assert!(!ui43_class_hit(&chain(&[])));
    assert!(ui43_is_kind(&chain(&["X", "CCSprite", "CCNode"]), "CCSprite"));
    assert!(!ui43_is_kind(&chain(&["X"]), "CCSprite"));
}

#[test]
fn only_plain_pictures_are_stretched() {
    let sprite = chain(&["CCSprite", "CCNode"]);
    assert!(ui43_may_stretch(&sprite, 0));
    assert!(!ui43_may_stretch(&sprite, 1));
    assert!(ui43_may_stretch(&chain(&["CCLayerColor"]), 0));
    assert!(!ui43_may_stretch(&chain(&["CCLabelTTF", "CCSprite"]), 0));
    assert!(!ui43_may_stretch(&chain(&["AcceptFriendsLayer", "CCLayerColor"]), 0));
    assert!(!ui43_may_stretch(&chain(&["CCNode"]), 0));
}

#[test]
fn a_panel_is_moved_once() {
    let mut ui = Ui43::new();
    let plan = ui.ui43_center_on_enter(5, true, WIDE, &vec![(1, false)], true);
    assert!(plan.shift && plan.extend_background && plan.stretch_children);
    assert!(ui.ui43_root_contains(5));
    let again = ui.ui43_center_on_enter(5, true, WIDE, &vec![], true);
    assert!(!again.shift && again.extend_background && !again.stretch_children);
    let inner = ui.ui43_center_on_enter(6, true, WIDE, &vec![(1, false), (5, false)], true);
    assert!(!inner.shift && !inner.extend_background);
    let nested = ui.ui43_center_on_enter(7, true, WIDE, &vec![(2, true)], true);
    assert!(!nested.shift);
    assert!(!ui.ui43_center_on_enter(8, false, WIDE, &vec![], true).shift);
    assert!(!ui.ui43_center_on_enter(8, true, 1025, &vec![], true).shift);
    assert!(ui.ui43_center_on_enter(8, true, 1026, &vec![], false).shift);
    assert_eq!(ui.roots, vec![5, 8]);
}

#[test]
fn far_ancestors_do_not_count() {
    let mut ui = Ui43::new();
    ui.ui43_root_add(99);
    let mut nodes: Vec<(u32, bool)> = (0..32).map(|i| (i, false)).collect();
    nodes.push((99, false));
    assert!(!ui.ui43_has_shifted_ancestor(&nodes));
    nodes.remove(0);
    assert!(ui.ui43_has_shifted_ancestor(&nodes));
}

#[test]
fn children_and_views_are_looked_at() {
    let mut ui = Ui43::new();
    ui.ui43_root_add(5);
    assert!(ui.ui43_on_add_child(5, 6, WIDE));
    assert!(!ui.ui43_on_add_child(4, 6, WIDE));
    assert!(!ui.ui43_on_add_child(5, 0, WIDE));
    assert!(!ui.ui43_on_add_child(5, 6, 1024));
    assert!(!ui.ui43_on_add_subview(1, 2, WIDE, false, true));
    assert!(!ui.ui43_on_add_subview(1, 2, WIDE, true, false));
    assert!(ui.ui43_on_add_subview(1, 2, WIDE, true, true));
    assert!(!ui.ui43_on_add_subview(1, 2, WIDE, true, true));
    assert!(ui.ui43_view_contains(2));
    ui.ui43_view_remove(2);
    assert!(!ui.ui43_view_contains(2));
}

#[test]
fn asking_for_true_positions_is_undone() {
    let mut ui = Ui43::new();
    let before = ui.enter_inner(3);
    assert!(!before && ui.ui43_inner_active(3) && !ui.ui43_inner_active(4));
    let nested = ui.enter_inner(3);
    assert!(nested);
    ui.leave_inner(3, nested);
    assert!(ui.ui43_inner_active(3));
    assert!(ui.ui43_inner_active(67));
    ui.leave_inner(3, before);
    assert_eq!(ui.inner, 0);
}

#[test]
fn nothing_moved_nothing_translated() {
    let mut ui = Ui43::new();
    for sel in ["position", "setPosition:", "frame", "locationInView:", "convertToUI:", "x"] {
        assert_eq!(
            intercept_fast(&mut ui, FastSel::of(sel), false, 0, WIDE, &regs()),
            FastStep::Pass
        );
    }
}

#[test]
fn positions_of_moved_objects_are_translated() {
    let mut ui = Ui43::new();
    ui.ui43_root_add(11);
    ui.ui43_view_add(10);
    let mut ask = |sel: &str, host: bool, height: u32| {
        intercept_fast(&mut ui, FastSel::of(sel), host, 0, height, &regs())
    };
    assert_eq!(ask("position", false, WIDE), FastStep::GetPosition { recv: 11, into: 10, halves: -342 });
    assert_eq!(ask("position", true, WIDE), FastStep::Pass);
    assert_eq!(ask("position", false, 1024), FastStep::Pass);
    assert_eq!(ask("setPosition:", false, WIDE), FastStep::Pass);
    assert_eq!(ask("frame", false, WIDE), FastStep::Pass);
    assert_eq!(
        ask("setFrame:", false, WIDE),
        FastStep::SetFrame { recv: 10, x: 12, y: 13, rest: 14, halves: 342 }
    );
    assert_eq!(ask("locationInView:", false, WIDE), FastStep::Pass);
}

#[test]
fn written_positions_read_back() {
    let mut ui = Ui43::new();
    ui.ui43_root_add(10);
    let read = FastRegs { r0: 99, r1: 10, ..regs() };
    let out = intercept_fast(&mut ui, FastSel::SetPosition, false, 0, WIDE, &regs());
    let back = intercept_fast(&mut ui, FastSel::Position, false, 0, WIDE, &read);
    assert_eq!(out, FastStep::SetPosition { recv: 10, x: 12, y: 13, halves: 342 });
    assert_eq!(back, FastStep::GetPosition { recv: 10, into: 99, halves: -342 });
    let other = FastRegs { r0: 99, r1: 11, ..regs() };
    assert_eq!(
        intercept_fast(&mut ui, FastSel::Position, false, 0, WIDE, &other),
        FastStep::Pass
    );
}

#[test]
fn touches_are_translated_for_panel_code() {
    let start = (0..0x500000).find(|lr| ui43_lr_in_wl(*lr)).unwrap();
    let mut ui = Ui43::new();
    ui.ui43_root_add(1);
    let r = FastRegs { lr: start | 1, ..regs() };
    let mut ask = |sel: &str, r: &FastRegs| intercept_fast(&mut ui, FastSel::of(sel), false, 0, WIDE, r);
    assert_eq!(
        ask("locationInView:", &r),
        FastStep::Location { recv: 11, view: 13, into: 10, halves: -342 }
    );
    assert_eq!(
        ask("previousLocationInView:", &FastRegs { r3: 0, ..r }),
        FastStep::Location { recv: 11, view: 0, into: 10, halves: 0 }
    );
    assert_eq!(
        ask("convertToWorldSpaceAR:", &r),
        FastStep::ToWorld { recv: 11, x: 13, y_at: 14, into: 10, halves: -342 }
    );
    assert_eq!(
        ask("convertToNodeSpace:", &r),
        FastStep::ToNode { recv: 11, x: 13, y_at: 14, into: 10, halves: 342 }
    );
}

#[test]
fn freed_objects_are_forgotten() {
    let mut ui = Ui43::new();
    ui.ui43_root_add(10);
    ui.ui43_root_add(20);
    ui.ui43_view_add(10);
    let step = intercept_fast(&mut ui, FastSel::Dealloc, true, 0, 0, &regs());
    assert_eq!(step, FastStep::Pass);
    assert_eq!(ui.roots, vec![20]);
    assert!(ui.views.is_empty());
    ui.ui43_root_remove(20);
    assert!(!ui.ui43_root_contains(20));
}

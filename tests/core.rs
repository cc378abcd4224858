use std::cell::Cell;

use wa_automation::discovery::{ChildQuery, Discovery};
use wa_automation::drag::{DragPhase, DragProbe};
use wa_automation::sequencer::{path_step, Sequencer, Step, StepAction, Target};
use wa_automation::snapshot::{get_window_data, Point, Rect, WindowInfo};
use wa_automation::text::{contains, matches_at, TextMatch};
use wa_automation::wait::{first_match, wait_step, WaitAction};
use wa_automation::{Found, GetFound, RefreshCache, WindowHandle};

fn h(id: u64) -> WindowHandle {
    WindowHandle { id }
}

/// Children of each handle in a synthetic window system.
fn children_of(id: u64) -> Vec<u64> {
    match id {
        1 => vec![10, 11, 12],
        10 => vec![100, 101],
        12 => vec![120],
        _ => vec![],
    }
}

/// Answers a discovery query from the synthetic window system.
fn answer(q: ChildQuery) -> Option<WindowHandle> {
    let kids = children_of(q.parent.id);
    let pos = match q.after {
        None => 0,
        Some(a) => kids.iter().position(|k| *k == a.id).unwrap() + 1,
    };
    kids.get(pos).map(|k| h(*k))
}

fn discover(root: u64) -> Found {
    let mut d = Discovery::start(h(root));
    loop {
        let q = d.next_query();
        if let Some(tree) = d.receive(answer(q)) {
            assert!(d.is_finished());
            return tree;
        }
    }
}

fn info(text: &str) -> WindowInfo {
    WindowInfo {
        text: text.to_string(),
        name: format!("class-{text}"),
        w_type: "Button".to_string(),
        rect: Rect { left: 0, top: 0, right: 10, bottom: 10 },
        atom: 7,
    }
}

#[test]
fn discovery_keeps_enumeration_order() {
    let tree = discover(1);
    assert_eq!(tree.value(), h(1));
    let kids: Vec<u64> = tree.children().iter().map(|c| c.value().id).collect();
    assert_eq!(kids, vec![10, 11, 12]);
    let grand: Vec<u64> = tree.children()[0].children().iter().map(|c| c.value().id).collect();
    assert_eq!(grand, vec![100, 101]);
    assert_eq!(tree.children()[2].children()[0].value(), h(120));
}

#[test]
fn discovery_asks_after_last_found_child() {
    let mut d = Discovery::start(h(1));
    assert_eq!(d.next_query(), ChildQuery { parent: h(1), after: None });
    assert!(d.receive(Some(h(10))).is_none());
    assert_eq!(d.next_query(), ChildQuery { parent: h(10), after: None });
    assert!(d.receive(None).is_none());
    assert_eq!(d.next_query(), ChildQuery { parent: h(1), after: Some(h(10)) });
    let done = d.receive(None).unwrap();
    assert_eq!(done.children().len(), 1);
}

#[test]
fn snapshot_paths_and_depths() {
    let tree = discover(1);
    let handles = tree.into_handles();
    let ids: Vec<u64> = handles.iter().map(|x| x.id).collect();
    assert_eq!(ids, vec![1, 10, 100, 101, 11, 12, 120]);
    let infos: Vec<WindowInfo> = ids.iter().map(|i| info(&format!("w{i}"))).collect();
    let data = get_window_data(&tree, &infos);
    assert_eq!(data.depth, 0);
    assert!(data.path.is_empty());
    for (i, c) in data.children.iter().enumerate() {
        assert_eq!(c.depth, 1);
        assert_eq!(c.path, vec![i]);
        for (j, g) in c.children.iter().enumerate() {
            assert_eq!(g.depth, 2);
            assert_eq!(g.path, vec![i, j]);
        }
    }
    assert_eq!(data.children[0].children[1].text, "w101");
    assert_eq!(data.children[0].children[1].handle, h(101));
    assert_eq!(data.children[2].children[0].name, "class-w120");
    assert_eq!(data.children[1].text, "w11");
}

#[test]
fn cache_rebuilds_after_threshold() {
    let counter = Cell::new(0u32);
    let produce = || {
        counter.set(counter.get() + 1);
        counter.get()
    };
    let t = 3usize;
    let mut cache = RefreshCache::new(t);
    let mut seen = Vec::new();
    for _ in 0..t {
        seen.push(*cache.get_or_refresh(produce));
    }
    assert_eq!(seen, vec![1, 1, 1]);
    assert_eq!(counter.get(), 1);
    seen.push(*cache.get_or_refresh(produce));
    assert_eq!(seen, vec![1, 1, 1, 2]);
    assert_eq!(counter.get(), 2);
}

#[test]
fn cache_threshold_one_always_fresh() {
    let counter = Cell::new(0u32);
    let produce = || {
        counter.set(counter.get() + 1);
        counter.get()
    };
    let mut cache = RefreshCache::new(1);
    assert_eq!(*cache.get_or_refresh(produce), 1);
    assert_eq!(*cache.get_or_refresh(produce), 2);
    assert_eq!(*cache.get_or_refresh(produce), 3);
}

#[test]
fn wait_picks_earliest_in_pre_order() {
    let tree = discover(1);
    let handles = tree.into_handles();
    // 101 and 12 both match; 101 comes first in pre-order.
    let verdicts: Vec<bool> = handles.iter().map(|x| x.id == 101 || x.id == 12).collect();
    for _ in 0..3 {
        assert_eq!(wait_step(&handles, &verdicts, 100), WaitAction::Proceed(h(101)));
    }
    assert_eq!(first_match(&handles, &verdicts), Some(h(101)));
}

#[test]
fn wait_sleeps_when_nothing_matches() {
    let handles = vec![h(1), h(2)];
    assert_eq!(wait_step(&handles, &vec![false, false], 250), WaitAction::Sleep(250));
    assert_eq!(first_match(&vec![], &vec![]), None);
}

#[test]
fn lookup_missing_child_is_absent() {
    let mut root = Found::new(h(1));
    root.add_child(Found::new(h(2)));
    root.add_child(Found::new(h(3)));
    root.add_child(Found::new(h(4)));
    assert!(root.lookup_by_path(&vec![5]).is_none());
    assert!(root.get(5).is_none());
    assert_eq!(root.lookup_by_path(&vec![2]).map(|f| f.value()), Some(h(4)));
    assert_eq!(root.lookup_by_path(&vec![]).map(|f| f.value()), Some(h(1)));
    assert!(root.lookup_by_path(&vec![0, 0]).is_none());
    assert_eq!(Some(&root).get(1).value(), Some(h(3)));
    assert_eq!(Some(&root).get(7).get(0).value(), None);
    assert_eq!(Some(root).get(0).value(), Some(h(2)));
}

#[test]
fn snapshot_reads_are_stable() {
    let tree = discover(1);
    let ids: Vec<u64> = tree.into_handles().iter().map(|x| x.id).collect();
    let infos: Vec<WindowInfo> = ids.iter().map(|i| info(&format!("w{i}"))).collect();
    let data = get_window_data(&tree, &infos);
    let a = (data.text.clone(), data.rect, data.children.len());
    let b = (data.text.clone(), data.rect, data.children.len());
    assert_eq!(a, b);
    assert_eq!(tree.value(), tree.value());
    assert_eq!(tree.children().len(), tree.children().len());
}

#[test]
fn drag_interference_cools_down_before_click() {
    let bounds = Rect { left: 100, top: 500, right: 201, bottom: 520 };
    let mut g = DragProbe::new(bounds, 1, 2, 2000, 100);
    assert_eq!(g.phase, DragPhase::Positioning);
    let start = g.start();
    assert_eq!(start, Point { x: 150, y: 500 });
    assert_eq!(g.phase, DragPhase::Probing);

    // First probe: nothing recorded yet, so no interference.
    assert_eq!(g.check_pointer(start), None);
    g.record_pointer(start);
    let p = g.advance().unwrap();
    assert_eq!(p, Point { x: 150, y: 498 });
    assert!(!g.observe_label(false));

    // Someone moved the pointer away: cooldown, no click.
    let moved = Point { x: 400, y: 300 };
    assert_eq!(g.check_pointer(moved), Some(2000));
    g.record_pointer(moved);
    assert_eq!(g.phase, DragPhase::Probing);
    let p = g.advance().unwrap();
    assert_eq!(p, Point { x: 150, y: 496 });
    assert!(!g.observe_label(false));
    assert_eq!(g.phase, DragPhase::Probing);

    // The pointer follows again; the label now shows and the click fires.
    assert_eq!(g.check_pointer(Point { x: 150, y: 496 }), Some(2000));
    g.record_pointer(Point { x: 150, y: 496 });
    let p = g.advance().unwrap();
    assert_eq!(g.check_pointer(p), None);
    assert!(g.observe_label(true));
    assert_eq!(g.phase, DragPhase::Committed);
    assert_eq!(g.clicked(), 100);
    assert!(g.is_finished());
}

#[test]
fn drag_repeats_and_stops_at_range_end() {
    let mut g = DragProbe::new(Rect { left: 0, top: -2147483647, right: 0, bottom: 0 }, 2, 2, 5, 6);
    g.start();
    assert_eq!(g.advance(), None);
    assert_eq!(g.y, -2147483647);
    assert!(g.observe_label(true));
    assert_eq!(g.clicked(), 6);
    assert_eq!(g.phase, DragPhase::Probing);
    assert_eq!(g.remaining, 1);

    let mut none = DragProbe::new(Rect { left: -3, top: 0, right: 4, bottom: 0 }, 0, 2, 5, 6);
    assert_eq!(none.x, 0);
    none.start();
    assert!(none.is_finished());
}

#[test]
fn cursor_picks_innermost_window() {
    let mut root = Found::new(h(1));
    root.add_child(Found::new(h(2)));
    root.add_child(Found::new(h(3)));
    let mut infos = vec![info("root"), info("a"), info("b")];
    infos[0].rect = Rect { left: 0, top: 0, right: 100, bottom: 100 };
    infos[1].rect = Rect { left: 0, top: 0, right: 10, bottom: 10 };
    infos[2].rect = Rect { left: 20, top: 20, right: 60, bottom: 60 };
    let data = get_window_data(&root, &infos);
    assert_eq!(data.last_child_containing(&Point { x: 30, y: 30 }).unwrap().handle, h(3));
    assert_eq!(data.last_child_containing(&Point { x: 80, y: 80 }).unwrap().handle, h(1));
    assert!(data.last_child_containing(&Point { x: 200, y: 5 }).is_none());
    // Edges are outside.
    assert_eq!(data.last_child_containing(&Point { x: 20, y: 30 }).unwrap().handle, h(1));
}

#[test]
fn text_conditions() {
    let menu = TextMatch::StartsWith("(1)Create".to_string());
    assert!(menu.accepts("(1)Create single or multiplayer game"));
    assert!(!menu.accepts("x(1)Create"));
    assert!(!menu.accepts("(1)Cre"));
    let results = TextMatch::Contains("ROUND RESULTS".to_string());
    assert!(results.accepts("(1) ROUND RESULTS"));
    assert!(!results.accepts("ROUND RESULT"));
    assert!(contains("abc", ""));
    assert!(contains("é日本", "日本"));
    assert!(matches_at("abcd", "cd", 2));
    assert!(!matches_at("abcd", "cd", 3));
}

#[test]
fn sequencer_runs_steps_in_order() {
    let steps = vec![
        Step { target: Target::Text(TextMatch::StartsWith("(1)".to_string())), action: StepAction::Click },
        Step { target: Target::Path(vec![0, 1]), action: StepAction::Scroll(-5) },
    ];
    let mut seq = Sequencer::new(steps);
    assert_eq!(seq.current().unwrap().action, StepAction::Click);
    seq.complete();
    assert_eq!(seq.current().unwrap().action, StepAction::Scroll(-5));
    seq.complete();
    assert!(seq.current().is_none());
    assert!(seq.is_done());
}

#[test]
fn path_step_waits_until_present() {
    let mut root = Found::new(h(1));
    assert_eq!(path_step(&root, &vec![0], 200), WaitAction::Sleep(200));
    root.add_child(Found::new(h(9)));
    assert_eq!(path_step(&root, &vec![0], 200), WaitAction::Proceed(h(9)));
}

use glazewm::commands::ignore_window::{finish_ignore, ignore_window};
use glazewm::geometry::Rect;
use glazewm::model::{
    DisplayState, FloatingStateConfig, FullscreenStateConfig, SyncError, WindowState,
};
use glazewm::models::container::{Container, ContainerKind};
use glazewm::models::non_tiling_window::{MonitorAreas, NonTilingWindow};
use glazewm::models::tree::{ContainerTree, TreeError};
use glazewm::models::window::{ActiveDrag, NativeWindowProperties};
use glazewm::platform::window_position_queue::{Position, Queue};
use glazewm::state::WmState;

#[test]
fn dropping_tree_releases_every_container_type() {
    let mut tree = ContainerTree::new();
    let root = tree.create(ContainerKind::Root, 1);
    let tiled = tree.create(ContainerKind::TilingWindow, 2);
    let floating = tree.create(ContainerKind::NonTilingWindow, 3);
    let split = tree.create(ContainerKind::Split, 4);
    tree.attach(&tiled, &split).unwrap();
    let workspace = tree.create(ContainerKind::Workspace, 5);
    tree.attach(&split, &workspace).unwrap();
    tree.attach(&floating, &workspace).unwrap();
    let monitor = tree.create(ContainerKind::Monitor, 6);
    tree.attach(&workspace, &monitor).unwrap();
    tree.attach(&monitor, &root).unwrap();
    let weak = [
        root.downgrade(),
        monitor.downgrade(),
        workspace.downgrade(),
        split.downgrade(),
        tiled.downgrade(),
        floating.downgrade(),
    ];
    for container in [monitor, workspace, split, tiled, floating] {
        tree.release(container);
    }
    for value in &weak {
        let container = value.upgrade(&mut tree);
        assert!(container.is_some());
        tree.release(container.unwrap());
    }
    tree.release(root);
    assert!(weak.iter().all(|value| value.upgrade(&mut tree).is_none()));
}

#[test]
fn detached_subtree_drops_without_leaking_descendants() {
    let mut tree = ContainerTree::new();
    let child = tree.create(ContainerKind::TilingWindow, 1);
    let workspace = tree.create(ContainerKind::Workspace, 2);
    tree.attach(&child, &workspace).unwrap();
    let monitor = tree.create(ContainerKind::Monitor, 3);
    tree.attach(&workspace, &monitor).unwrap();
    let weak_child = child.downgrade();
    tree.release(child);
    tree.detach(&workspace).unwrap();
    tree.release(workspace);
    assert!(weak_child.upgrade(&mut tree).is_none());
    assert_eq!(tree.child_count(&monitor), 0);
}

#[test]
fn surviving_child_does_not_keep_parent_alive() {
    let mut tree = ContainerTree::new();
    let child = tree.create(ContainerKind::TilingWindow, 1);
    let parent = tree.create(ContainerKind::Workspace, 2);
    tree.attach(&child, &parent).unwrap();
    let weak_parent = parent.downgrade();
    tree.release(parent);
    assert!(weak_parent.upgrade(&mut tree).is_none());
    assert!(tree.is_detached(&child));
    assert_eq!(tree.ancestors(&child).len(), 0);
}

#[test]
fn child_focus_iterator_advances_and_terminates() {
    let mut tree = ContainerTree::new();
    let first = tree.create(ContainerKind::TilingWindow, 11);
    let second = tree.create(ContainerKind::TilingWindow, 12);
    let workspace = tree.create(ContainerKind::Workspace, 13);
    tree.attach(&first, &workspace).unwrap();
    tree.attach(&second, &workspace).unwrap();
    let ids: Vec<_> = tree.child_focus_order(&workspace).into_iter().take(3).collect();
    assert_eq!(ids, vec![first.id(), second.id()]);
}

#[test]
fn a_container_has_one_parent_and_is_not_its_own_ancestor() {
    let mut tree = ContainerTree::new();
    let top = tree.create(ContainerKind::Workspace, 1);
    let middle = tree.create(ContainerKind::Split, 2);
    let bottom = tree.create(ContainerKind::Split, 3);
    tree.attach(&middle, &top).unwrap();
    tree.attach(&bottom, &middle).unwrap();
    assert_eq!(tree.attach(&bottom, &top), Err(TreeError::AlreadyAttached));
    assert_eq!(tree.attach(&top, &bottom), Err(TreeError::Cycle));
    assert_eq!(tree.attach(&top, &top), Err(TreeError::Cycle));
    assert_eq!(tree.detach(&top), Err(TreeError::NotAttached));
    let ids: Vec<_> = tree.ancestors(&bottom).iter().map(|link| link.id()).collect();
    assert_eq!(ids, vec![2, 1]);
    // A subtree can be moved below what used to be above it.
    tree.detach(&middle).unwrap();
    tree.attach(&top, &bottom).unwrap();
    let ids: Vec<_> = tree.ancestors(&top).iter().map(|link| link.id()).collect();
    assert_eq!(ids, vec![3, 2]);
}

#[test]
fn sharing_keeps_a_container_alive() {
    let mut tree = ContainerTree::new();
    let window = tree.create(ContainerKind::TilingWindow, 1);
    let copy = tree.share(&window);
    assert_eq!(copy, window);
    let weak = window.downgrade();
    tree.release(window);
    let upgraded = weak.upgrade(&mut tree).unwrap();
    tree.release(copy);
    assert_eq!(weak.kind(), ContainerKind::TilingWindow);
    tree.release(upgraded);
    assert!(weak.upgrade(&mut tree).is_none());
}

/// The lookup that equality by identity is for.
fn place_of<T: Eq>(list: &[T], wanted: &T) -> Option<usize> {
    list.iter().position(|item| item == wanted)
}

#[test]
fn containers_are_found_by_identity() {
    let mut tree = ContainerTree::new();
    let first = tree.create(ContainerKind::Split, 1);
    let second = tree.create(ContainerKind::Split, 2);
    let copy = tree.share(&second);
    let list = [first, second];
    assert_eq!(place_of(&list, &copy), Some(1));
    let [first, second] = list.map(|split| split.as_tiling_container().unwrap());
    let copy = copy.as_tiling_container().unwrap();
    assert_eq!(place_of(&[first, second], &copy), Some(1));
}

#[test]
fn containers_are_equal_by_identity_and_convert_by_kind() {
    let mut tree = ContainerTree::new();
    let split = tree.create(ContainerKind::Split, 1);
    let twin = tree.create(ContainerKind::Workspace, 1);
    let other = tree.create(ContainerKind::Split, 2);
    assert!(split == twin);
    assert!(split != other);
    let tiling = split.as_tiling_container().unwrap();
    assert_eq!(tiling.id(), 1);
    let direction = tiling.as_container().as_direction_container().unwrap();
    let back = direction.as_container();
    assert!(matches!(back, Container::Split(_)));
    assert!(back.as_window_container().is_err());
    let floating = tree.create(ContainerKind::NonTilingWindow, 3);
    assert!(floating.as_tiling_container().is_err());
    let tiled = tree.create(ContainerKind::TilingWindow, 4);
    let window = tiled.as_window_container().unwrap();
    assert_eq!(window.id(), 4);
    assert!(window.as_container().as_direction_container().is_err());
}

#[test]
fn ignoring_a_window_redraws_its_siblings() {
    let mut tree = ContainerTree::new();
    let mut state = WmState::new(1);
    let mut positions = Queue::new();
    let position = Position {
        thread: 1,
        process: 1,
        after: 0,
        x: 0,
        y: 0,
        width: 1,
        height: 1,
        flags: 0,
        sent: None,
        retry_once: false,
    };
    positions.enqueue(77, position).unwrap();
    let root = tree.create(ContainerKind::Root, 1);
    let monitor = tree.create(ContainerKind::Monitor, 2);
    let workspace = tree.create(ContainerKind::Workspace, 3);
    let split = tree.create(ContainerKind::Split, 4);
    let window = tree.create(ContainerKind::TilingWindow, 5);
    let sibling = tree.create(ContainerKind::TilingWindow, 6);
    let floating = tree.create(ContainerKind::NonTilingWindow, 7);
    tree.attach(&monitor, &root).unwrap();
    tree.attach(&workspace, &monitor).unwrap();
    tree.attach(&split, &workspace).unwrap();
    tree.attach(&window, &split).unwrap();
    tree.attach(&sibling, &split).unwrap();
    tree.attach(&floating, &split).unwrap();

    let links = ignore_window(&mut tree, &mut state, &mut positions, &window, 77).unwrap();
    assert_eq!(links.iter().map(|link| link.id()).collect::<Vec<_>>(), vec![4, 3, 2]);
    assert_eq!(state.ignored_windows, vec![77]);
    assert!(positions.handles().is_empty());
    assert!(tree.is_detached(&window));

    let ancestors: Vec<_> =
        links.iter().map(|link| link.upgrade(&mut tree).unwrap()).collect();
    assert_eq!(finish_ignore(&tree, &mut state, WindowState::Minimized, &ancestors), Ok(()));
    assert!(!state.pending_sync.has_changes());
    assert_eq!(finish_ignore(&tree, &mut state, WindowState::Tiling, &ancestors), Ok(()));
    assert_eq!(state.pending_sync.containers_to_redraw, vec![6]);

    // The closest ancestor that is still attached counts.
    tree.detach(&split).unwrap();
    tree.attach(&sibling, &root).err();
    tree.detach(&sibling).unwrap();
    tree.attach(&sibling, &workspace).unwrap();
    let mut state = WmState::new(1);
    assert_eq!(finish_ignore(&tree, &mut state, WindowState::Tiling, &ancestors), Ok(()));
    assert_eq!(state.pending_sync.containers_to_redraw, vec![6]);
    assert_eq!(
        finish_ignore(&tree, &mut state, WindowState::Tiling, &vec![]),
        Err(SyncError::NoAncestorToRedraw)
    );
    assert_eq!(
        ignore_window(&mut tree, &mut state, &mut positions, &window, 77).err(),
        Some(TreeError::NotAttached)
    );
}

fn properties(title: &str) -> NativeWindowProperties {
    NativeWindowProperties {
        title: title.to_string(),
        class_name: "Class".to_string(),
        process_name: "process".to_string(),
        frame: Rect::from_xy(0, 0, 10, 10),
        is_minimized: false,
        is_maximized: false,
    }
}

fn window(state: WindowState) -> NonTilingWindow<u8, &'static str, u8> {
    NonTilingWindow::new(
        Some(9),
        42,
        properties("title"),
        state,
        Some(WindowState::Tiling),
        "border",
        Some(5),
        Rect::from_xy(1, 2, 30, 40),
        true,
        vec![7],
        None,
    )
}

#[test]
fn maximized_window_uses_work_area_and_fullscreen_uses_monitor() {
    let bounds = Rect::from_xy(100, 0, 1920, 1080);
    let work_area = Rect::from_xy(100, 0, 1920, 1040);
    let monitor = Some(MonitorAreas { working_area: work_area, rect: Some(bounds) });
    let mut window = window(WindowState::Fullscreen(FullscreenStateConfig {
        maximized: true,
        shown_on_top: false,
    }));
    assert_eq!(window.to_rect(monitor).unwrap(), work_area);
    window.state = WindowState::Fullscreen(FullscreenStateConfig {
        maximized: false,
        shown_on_top: false,
    });
    assert_eq!(window.to_rect(monitor).unwrap(), bounds);
    assert_eq!(window.to_rect(None), Err(SyncError::NoMonitor));
    let unplaced = Some(MonitorAreas { working_area: work_area, rect: None });
    assert_eq!(window.to_rect(unplaced), Err(SyncError::NoPlacement));
    window.state = WindowState::Minimized;
    assert_eq!(window.to_rect(None), Ok(Rect::from_xy(1, 2, 30, 40)));
}

#[test]
fn windows_without_an_id_get_a_random_one() {
    let make = || {
        NonTilingWindow::<u8, u8, u8>::new(
            None,
            1,
            properties(""),
            WindowState::Minimized,
            None,
            0,
            None,
            Rect::from_xy(0, 0, 1, 1),
            false,
            vec![],
            None,
        )
    };
    let first = make();
    let second = make();
    assert_ne!(first.id, second.id);
    assert_eq!(first.id & 0xf000_c000_0000_0000_0000, 0x4000_8000_0000_0000_0000);
    assert_eq!(uuid::Uuid::from_u128(first.id).get_version_num(), 4);
    assert_eq!(first.display_state, DisplayState::Shown);
    assert!(!first.has_pending_dpi_adjustment);
}

#[test]
fn a_window_remembers_the_state_that_it_leaves() {
    let floating =
        WindowState::Floating(FloatingStateConfig { centered: true, shown_on_top: false });
    let mut first = window(floating);
    assert_eq!(first.insertion_target(), Some(&5));
    first.set_insertion_target(None);
    assert_eq!(first.insertion_target(), None);
    let tiled = first.to_tiling("gaps");
    assert_eq!(tiled.prev_state, Some(floating));
    assert_eq!((tiled.id, tiled.native, tiled.border_delta), (9, 42, "border"));
    assert_eq!(tiled.done_window_rules, vec![7]);
    assert_eq!(tiled.gaps_config, "gaps");
    let mut dragged = window(floating);
    dragged.active_drag = Some(ActiveDrag { operation: None });
    assert_eq!(dragged.to_tiling(()).prev_state, Some(WindowState::Tiling));
}

#[test]
fn windows_are_described_to_the_outside() {
    let minimized = window(WindowState::Minimized);
    let dto = minimized.to_dto(Some(3), true, None).unwrap();
    assert_eq!(*dto.border_delta, "border");
    assert_eq!((dto.id, dto.parent_id, dto.has_focus, dto.handle), (9, Some(3), true, 42));
    assert_eq!((dto.x, dto.y, dto.width, dto.height), (1, 2, 30, 40));
    assert_eq!((dto.title.as_str(), dto.class_name.as_str()), ("title", "Class"));
    assert_eq!(dto.process_name, "process");
    assert_eq!(dto.prev_state, Some(WindowState::Tiling));
    let fullscreen = WindowState::Fullscreen(FullscreenStateConfig {
        maximized: true,
        shown_on_top: false,
    });
    assert_eq!(window(fullscreen).to_dto(None, false, None).err(), Some(SyncError::NoMonitor));
}

#[test]
fn long_titles_are_shortened_in_labels() {
    assert_eq!(
        properties("12345678901234567890").label("WindowId(7)"),
        "Window(id=WindowId(7), process=process, class=Class, title=12345678901234567890)"
    );
    assert_eq!(
        properties("123456789012345678901").label("7"),
        "Window(id=7, process=process, class=Class, title=12345678901234567...)"
    );
    // Characters count, however many bytes they take.
    assert_eq!(
        properties("Выполнить Run").label("7"),
        "Window(id=7, process=process, class=Class, title=Выполнить Run)"
    );
    assert_eq!(
        properties("абвгдежзийклмнопрсту").label("7"),
        "Window(id=7, process=process, class=Class, title=абвгдежзийклмнопрсту)"
    );
    assert_eq!(
        properties("абвгдежзийклмнопрстуф").label("7"),
        "Window(id=7, process=process, class=Class, title=абвгдежзийклмнопр...)"
    );
}

#[test]
fn dead_containers_stay_dead() {
    let mut tree = ContainerTree::new();
    let workspace = tree.create(ContainerKind::Workspace, 1);
    let window = tree.create(ContainerKind::TilingWindow, 2);
    tree.attach(&window, &workspace).unwrap();
    let link = window.downgrade();
    tree.detach(&window).unwrap();
    tree.release(window);
    assert!(link.upgrade(&mut tree).is_none());
    let next = tree.create(ContainerKind::TilingWindow, 2);
    assert!(link.upgrade(&mut tree).is_none());
    tree.attach(&next, &workspace).unwrap();
    let copy = tree.share(&next);
    assert!(link.upgrade(&mut tree).is_none());
    tree.detach(&next).unwrap();
    tree.release(next);
    tree.release(copy);
    assert!(link.upgrade(&mut tree).is_none());
}

use rmox::input::keyboard::{Key, KeyEvent, KeyEventKind, Modifier, Modifiers, Scancode};
use rmox::input::stylus::{self, StylusState, Tool};
use rmox::input::touch::{self, TouchState};
use rmox::input::{Event as DeviceEvent, RawEvent, SupportedDeviceType, EV_ABS};
use rmox::protocol::client_to_server::SurfaceInit;
use rmox::protocol::server_to_client::{
    Event, InputEvent, StylusEvent, StylusPhase, SurfaceDescription, SurfaceEvent, TouchEvent, TouchPhase,
};
use rmox::protocol::{SurfaceId, TaskId};
use rmox::types::{rect, Rectangle, Rotation, Side};
use rmox::wm::manager::{Manager, ManagerConfig, Outgoing};
use rmox::wm::shell::{Container, ContainerKind, Shell, ShellLayer, ShellNode};
use rmox::wm::surfaces::Surface;

fn manager(rotation: Rotation) -> Manager {
    Manager::new(ManagerConfig { global_rotation: rotation, inset: 4 })
}

fn description(message: &Outgoing) -> (TaskId, SurfaceId, SurfaceDescription) {
    match &message.event {
        Event::Surface { id, event: SurfaceEvent::Description(description) } => (message.task, *id, *description),
        other => panic!("unexpected {other:?}"),
    }
}

fn deliver(manager: &mut Manager, messages: &[Outgoing]) {
    for message in messages {
        if let Event::Surface { id, event: SurfaceEvent::Description(description) } = &message.event {
            manager.acknowledge(*id, *description);
        }
    }
}

fn disjoint(a: &Rectangle, b: &Rectangle) -> bool {
    a.intersection(b).is_empty()
}

#[test]
fn layer_band() {
    let mut manager = manager(Rotation::Rotate0);
    let task = manager.spawn_task();
    let options = SurfaceInit::Layer { anchor: Side::Top, size: 48 };
    assert!(manager.can_create(options));
    let messages = manager.create_surface(task, options);
    assert_eq!(messages.len(), 1);
    let (to, _, description) = description(&messages[0]);
    assert_eq!(to, task);
    assert_eq!(
        description,
        SurfaceDescription { base_rect: rect(4, 4, 1396, 48), rotation: Rotation::Rotate0, scale: 1, visible: true }
    );
}

#[test]
fn root_split() {
    let mut manager = manager(Rotation::Rotate0);
    let bar = manager.spawn_task();
    let messages = manager.create_surface(bar, SurfaceInit::Layer { anchor: Side::Top, size: 48 });
    let (_, layer, layer_description) = description(&messages[0]);
    deliver(&mut manager, &messages);
    let first_task = manager.spawn_task();
    let messages = manager.create_surface(first_task, SurfaceInit::Normal);
    assert_eq!(messages.len(), 1);
    let (_, first, first_description) = description(&messages[0]);
    assert_eq!(first_description.base_rect, rect(4, 52, 1396, 1816));
    assert_eq!(manager.focused_surface(), Some(first));
    deliver(&mut manager, &messages);
    let second_task = manager.spawn_task();
    let messages = manager.create_surface(second_task, SurfaceInit::Normal);
    assert_eq!(messages.len(), 2);
    let (to, id, changed) = description(&messages[0]);
    assert_eq!((to, id), (first_task, first));
    assert_eq!(changed.base_rect, rect(4, 52, 698, 1816));
    let (to, second, second_description) = description(&messages[1]);
    assert_eq!(to, second_task);
    assert_eq!(second_description.base_rect, rect(702, 52, 698, 1816));
    assert_eq!(manager.focused_surface(), Some(second));
    assert!(disjoint(&changed.base_rect, &second_description.base_rect));
    assert!(disjoint(&changed.base_rect, &layer_description.base_rect));
    assert!(disjoint(&second_description.base_rect, &layer_description.base_rect));
    assert_eq!(manager.surface(layer).unwrap().description, layer_description);
}

#[test]
fn root_split_follows_the_global_rotation() {
    let mut manager = manager(Rotation::Rotate90);
    let task = manager.spawn_task();
    let messages = manager.create_surface(task, SurfaceInit::Layer { anchor: Side::Left, size: 48 });
    // The left of the turned screen is the top of the panel.
    assert_eq!(description(&messages[0]).2.base_rect, rect(4, 4, 1396, 48));
    assert_eq!(description(&messages[0]).2.rotation, Rotation::Rotate90);
    deliver(&mut manager, &messages);
    let messages = manager.create_surface(task, SurfaceInit::Normal);
    deliver(&mut manager, &messages);
    let messages = manager.create_surface(task, SurfaceInit::Normal);
    assert_eq!(description(&messages[0]).2.base_rect, rect(4, 52, 1396, (1872 - 4 - 4 - 48) / 2));
    assert_eq!(description(&messages[1]).2.base_rect.size, rmox::types::vec2(1396, (1872 - 4 - 4 - 48) / 2));
    deliver(&mut manager, &messages);
    // A third surface: the last child absorbs the rounding.
    let messages = manager.create_surface(task, SurfaceInit::Normal);
    let rects: Vec<Rectangle> = messages.iter().map(|m| description(m).2.base_rect).collect();
    assert_eq!(rects, [rect(4, 52, 1396, 605), rect(4, 657, 1396, 605), rect(4, 1262, 1396, 606)]);
}

fn close_hotkey() -> DeviceEvent {
    DeviceEvent::Key(KeyEvent {
        scancode: Scancode::B,
        key: Some(Key::X),
        event: KeyEventKind::Press,
        modifiers: Modifiers::none() + Modifier::Opt + Modifier::LeftShift,
    })
}

#[test]
fn close_focused() {
    let mut manager = manager(Rotation::Rotate0);
    let first_task = manager.spawn_task();
    let second_task = manager.spawn_task();
    let messages = manager.create_surface(first_task, SurfaceInit::Normal);
    let first = description(&messages[0]).1;
    deliver(&mut manager, &messages);
    let messages = manager.create_surface(second_task, SurfaceInit::Normal);
    let second = description(&messages[1]).1;
    deliver(&mut manager, &messages);
    assert_eq!(manager.focused_surface(), Some(second));
    let touch = touch::State::default();
    let messages = manager.handle_input(close_hotkey(), &touch, None);
    assert_eq!(messages.len(), 2);
    assert_eq!(
        messages[0],
        Outgoing { task: second_task, event: Event::Surface { id: second, event: SurfaceEvent::Quit } }
    );
    let (to, id, combined) = description(&messages[1]);
    assert_eq!((to, id), (first_task, first));
    assert_eq!(combined.base_rect, rect(4, 4, 1396, 1864));
    assert_eq!(manager.surface(second), None);
    assert_eq!(manager.focused_surface(), Some(first));
    deliver(&mut manager, &messages);
    // Closing the last surface empties the tree.
    let messages = manager.handle_input(close_hotkey(), &touch, None);
    assert_eq!(messages.len(), 1);
    assert_eq!(manager.focused_surface(), None);
    // Without a focused surface the key goes nowhere.
    assert_eq!(manager.handle_input(close_hotkey(), &touch, None), vec![]);
}

#[test]
fn reassign_twice_sends_nothing_new() {
    let mut manager = manager(Rotation::Rotate0);
    let task = manager.spawn_task();
    manager.create_surface(task, SurfaceInit::Layer { anchor: Side::Bottom, size: 100 });
    manager.create_surface(task, SurfaceInit::Wallpaper);
    let messages = manager.create_surface(task, SurfaceInit::Normal);
    assert_eq!(messages.len(), 3);
    // What has not been acknowledged is still owed.
    assert_eq!(manager.reassign_areas(), messages);
    deliver(&mut manager, &messages);
    assert_eq!(manager.reassign_areas(), vec![]);
    assert_eq!(manager.reassign_areas(), vec![]);
    for message in &messages {
        let (_, id, told) = description(message);
        let surface = manager.surface(id).unwrap();
        assert_eq!(surface.notified, Some(told));
        assert_eq!(surface.description, told);
    }
}

#[test]
fn wallpaper_is_visible_without_a_tree() {
    let mut manager = manager(Rotation::Rotate0);
    let task = manager.spawn_task();
    let other = manager.spawn_task();
    let messages = manager.create_surface(task, SurfaceInit::Wallpaper);
    let (_, old, told) = description(&messages[0]);
    assert_eq!(told, SurfaceDescription { base_rect: rect(4, 4, 1396, 1864), rotation: Rotation::Rotate0, scale: 1, visible: true });
    deliver(&mut manager, &messages);
    let messages = manager.create_surface(other, SurfaceInit::Normal);
    assert_eq!(messages.len(), 2);
    assert!(!manager.surface(old).unwrap().description.visible);
    deliver(&mut manager, &messages);
    // A new wallpaper replaces the old one, whose owner is told to quit.
    let messages = manager.create_surface(other, SurfaceInit::Wallpaper);
    assert_eq!(messages[0], Outgoing { task, event: Event::Surface { id: old, event: SurfaceEvent::Quit } });
    assert_eq!(messages.len(), 2);
    assert_eq!(description(&messages[1]).0, other);
    assert!(!description(&messages[1]).2.visible);
    assert_eq!(manager.surface(old), None);
}

#[test]
fn remove_task_removes_its_surfaces() {
    let mut manager = manager(Rotation::Rotate0);
    let first_task = manager.spawn_task();
    let second_task = manager.spawn_task();
    let messages = manager.create_surface(first_task, SurfaceInit::Normal);
    let first = description(&messages[0]).1;
    deliver(&mut manager, &messages);
    let messages = manager.create_surface(second_task, SurfaceInit::Layer { anchor: Side::Left, size: 10 });
    deliver(&mut manager, &messages);
    let messages = manager.create_surface(second_task, SurfaceInit::Normal);
    let second = description(&messages[1]).1;
    deliver(&mut manager, &messages);
    assert!(manager.has_task(second_task));
    let messages = manager.remove_task(second_task);
    assert!(!manager.has_task(second_task));
    assert_eq!(manager.surface(second), None);
    assert_eq!(messages.len(), 1);
    let (to, id, told) = description(&messages[0]);
    assert_eq!((to, id), (first_task, first));
    assert_eq!(told.base_rect, rect(4, 4, 1396, 1864));
    assert_eq!(manager.focused_surface(), Some(first));
    deliver(&mut manager, &messages);
    // A task that is not known changes nothing.
    assert_eq!(manager.remove_task(second_task), vec![]);
    assert_eq!(manager.remove_surface(second), None);
}

#[test]
fn input_goes_to_the_focused_surface() {
    let mut manager = manager(Rotation::Rotate0);
    let task = manager.spawn_task();
    let mut touch = touch::State::default();
    let mut queue = std::collections::VecDeque::new();
    touch.handle_events(&[RawEvent { kind: EV_ABS, code: touch::ABS_MT_POSITION_X, value: 9 }], &mut queue);
    let start = queue.pop_front().unwrap();
    // Nothing is focused: the event is dropped.
    assert_eq!(manager.handle_input(DeviceEvent::Text("a".to_owned()), &touch, None), vec![]);
    let messages = manager.create_surface(task, SurfaceInit::Normal);
    let id = description(&messages[0]).1;
    let to = |event| vec![Outgoing { task, event: Event::Surface { id, event: SurfaceEvent::Input(event) } }];
    assert_eq!(
        manager.handle_input(DeviceEvent::Text("a".to_owned()), &touch, None),
        to(InputEvent::Text("a".to_owned()))
    );
    let state = TouchState { x: 9, y: 0, pressure: 0, touch_major: 0, touch_minor: 0, orientation: 0 };
    assert_eq!(
        manager.handle_input(start, &touch, None),
        to(InputEvent::Touch(TouchEvent { id: touch::Id(0), phase: TouchPhase::Start(state) }))
    );
    assert_eq!(
        manager.handle_input(
            DeviceEvent::Touch(touch::Event { touch_id: touch::Id(1), phase: touch::Phase::End }),
            &touch,
            None
        ),
        to(InputEvent::Touch(TouchEvent { id: touch::Id(1), phase: TouchPhase::End }))
    );
    let pen = StylusState { tool: Tool::Pen, touching: true, x: 1, y: 2, pressure: 3, distance: 4, tilt_x: 5, tilt_y: 6 };
    assert_eq!(
        manager.handle_input(DeviceEvent::Stylus(stylus::Event { phase: stylus::Phase::Lift }), &touch, Some(pen)),
        to(InputEvent::Stylus(StylusEvent { phase: StylusPhase::Lift(pen) }))
    );
    assert_eq!(
        manager.handle_input(DeviceEvent::Stylus(stylus::Event { phase: stylus::Phase::Leave }), &touch, None),
        to(InputEvent::Stylus(StylusEvent { phase: StylusPhase::Leave }))
    );
    assert_eq!(
        manager.handle_input(DeviceEvent::DevicePresence(SupportedDeviceType::Stylus), &touch, None),
        vec![]
    );
    // X without the modifiers is an ordinary key.
    let plain = KeyEvent { scancode: Scancode::B, key: Some(Key::X), event: KeyEventKind::Press, modifiers: Modifiers::none() };
    assert_eq!(manager.handle_input(DeviceEvent::Key(plain), &touch, None), to(InputEvent::Key(plain)));
    assert_eq!(manager.focused_surface(), Some(id));
}

#[test]
fn layer_budget() {
    let mut manager = manager(Rotation::Rotate0);
    let task = manager.spawn_task();
    assert!(manager.can_create(SurfaceInit::Layer { anchor: Side::Top, size: 0x4000_0000 }));
    assert!(!manager.can_create(SurfaceInit::Layer { anchor: Side::Top, size: 0x4000_0001 }));
    assert!(!manager.can_create(SurfaceInit::Layer { anchor: Side::Top, size: i32::MIN }));
    manager.create_surface(task, SurfaceInit::Layer { anchor: Side::Top, size: -0x3000_0000 });
    assert!(manager.can_create(SurfaceInit::Layer { anchor: Side::Top, size: 0x1000_0000 }));
    assert!(!manager.can_create(SurfaceInit::Layer { anchor: Side::Top, size: 0x1000_0001 }));
    assert!(manager.can_create(SurfaceInit::Normal));
    assert!(manager.can_create(SurfaceInit::Wallpaper));
    assert_eq!(manager.config().inset, 4);
}

#[test]
fn shell_paths_are_repaired() {
    let leaf = |n: u32| ShellNode::Surface(SurfaceId(rmox::protocol::Id::new(n).unwrap()));
    let id = |n: u32| SurfaceId(rmox::protocol::Id::new(n).unwrap());
    let inner = Container { kind: ContainerKind::Vertical, children: vec![leaf(2), leaf(3)] };
    let root = Container { kind: ContainerKind::Horizontal, children: vec![leaf(1), ShellNode::Container(inner)] };
    assert_eq!(root.get_path(&[0], 0), Some(id(1)));
    assert_eq!(root.get_path(&[1, 1], 0), Some(id(3)));
    assert_eq!(root.get_path(&[1], 0), None);
    assert_eq!(root.get_path(&[0, 0], 0), None);
    assert_eq!(root.get_path(&[7], 0), None);
    assert_eq!(root.get_path(&[], 0), None);
    let fixed = |path: &[u8]| {
        let mut path = path.to_vec();
        root.fix_path(&mut path, 0);
        path
    };
    assert_eq!(fixed(&[]), [0]);
    assert_eq!(fixed(&[1]), [1, 0]);
    assert_eq!(fixed(&[9, 9]), [1, 1]);
    assert_eq!(fixed(&[0, 5, 5]), [0]);
    assert_eq!(fixed(&[1, 1]), [1, 1]);
    let table = |ids: &[u32]| -> Vec<Surface> {
        ids.iter()
            .map(|n| Surface {
                id: id(*n),
                description: SurfaceDescription { base_rect: rect(0, 0, 0, 0), rotation: Rotation::Rotate0, scale: 1, visible: true },
                task: TaskId(rmox::protocol::Id::start()),
                notified: None,
            })
            .collect()
    };
    let kept = root.retain(&table(&[1, 3])).unwrap();
    assert_eq!(kept.get_path(&[1, 0], 0), Some(id(3)));
    assert_eq!(kept.len_at(&[1], 0, 1), Some(1));
    let kept = root.retain(&table(&[1])).unwrap();
    assert_eq!(kept.children.len(), 1);
    assert!(root.retain(&table(&[])).is_none());
    let mut shell = Shell {
        layers: vec![ShellLayer { anchor: Side::Top, size: 1, surface: id(8) }, ShellLayer { anchor: Side::Top, size: 1, surface: id(1) }],
        root: Some(root),
        wallpaper: Some(id(9)),
    };
    shell.retain(&table(&[1, 2]));
    assert_eq!(shell.layers, [ShellLayer { anchor: Side::Top, size: 1, surface: id(1) }]);
    assert_eq!(shell.wallpaper, None);
    assert_eq!(shell.get_path(&[1, 0]), Some(id(2)));
    let mut path = Some(vec![1, 1]);
    shell.fix_path(&mut path);
    assert_eq!(path, Some(vec![1, 0]));
    shell.retain(&table(&[]));
    shell.fix_path(&mut path);
    assert_eq!(path, None);
    assert!(shell.root.is_none());
}

use cauldron::init_context::{find_pointer, InitializationContext};
use cauldron::input::{
    get_key, process_input, InputEvent, Key, Modifiers, PointerButton, WM_CHAR, WM_KEYDOWN, WM_KEYUP,
    WM_LBUTTONDBLCLK, WM_LBUTTONUP, WM_MBUTTONDOWN, WM_MOUSEHWHEEL, WM_MOUSEMOVE, WM_MOUSEWHEEL, WM_RBUTTONDOWN,
    WM_SYSKEYDOWN, WM_SYSKEYUP,
};
use cauldron::input::Key::Letter;
use cauldron::outparam::{try_out_err_blob, try_out_ptr};
use cauldron::rtti::{
    is_plausible_rtti, is_valid_ptr, rtti_base_name, rtti_name, rtti_value_aliases, ExportedSymbolKind, RTTICandidate,
    RTTIKind, RTTINames, RTTIWalk, ScanRanges,
};
use cauldron::texture::{
    descriptor_address, next_heap_capacity, texture_action, upload_copies, upload_layout, upload_size_matches,
    RowCopy, TextureAction,
};
use cauldron::ui::CauldronUI;

const NO_MODS: Modifiers = Modifiers { alt: false, ctrl: false, shift: false, mac_cmd: false, command: false };

#[test]
fn pointer_messages() {
    assert_eq!(process_input(WM_MOUSEMOVE, 0, 0x0020_0010, false, false), Some(InputEvent::PointerMoved { x: 16, y: 32 }));
    assert_eq!(process_input(WM_MOUSEMOVE, 0, 0xFFFF_FFFF, false, false), Some(InputEvent::PointerMoved { x: -1, y: -1 }));
    assert_eq!(process_input(WM_MOUSEMOVE, 0, -1, false, false), Some(InputEvent::PointerMoved { x: -1, y: -1 }));
    let ctrl = Modifiers { alt: false, ctrl: true, shift: false, mac_cmd: false, command: true };
    assert_eq!(
        process_input(WM_LBUTTONDBLCLK, 0x8, 0x0001_0002, false, false),
        Some(InputEvent::PointerButton { x: 2, y: 1, button: PointerButton::Primary, pressed: true, modifiers: ctrl })
    );
    assert_eq!(
        process_input(WM_LBUTTONUP, 0, 0, false, false),
        Some(InputEvent::PointerButton { x: 0, y: 0, button: PointerButton::Primary, pressed: false, modifiers: NO_MODS })
    );
    let shift = Modifiers { alt: false, ctrl: false, shift: true, mac_cmd: false, command: false };
    assert_eq!(
        process_input(WM_RBUTTONDOWN, 0x4, 0, false, false),
        Some(InputEvent::PointerButton { x: 0, y: 0, button: PointerButton::Secondary, pressed: true, modifiers: shift })
    );
    assert_eq!(
        process_input(WM_MBUTTONDOWN, 0, 0, false, false),
        Some(InputEvent::PointerButton { x: 0, y: 0, button: PointerButton::Middle, pressed: true, modifiers: NO_MODS })
    );
}

#[test]
fn wheel_and_text_messages() {
    assert_eq!(
        process_input(WM_MOUSEWHEEL, 0x0078_0000, 0, false, false),
        Some(InputEvent::MouseWheel { horizontal: false, delta: 120, modifiers: NO_MODS })
    );
    assert_eq!(
        process_input(WM_MOUSEHWHEEL, 0xFF88_0000, 0, false, false),
        Some(InputEvent::MouseWheel { horizontal: true, delta: -120, modifiers: NO_MODS })
    );
    assert_eq!(process_input(WM_CHAR, 'a' as usize, 0, false, false), Some(InputEvent::Text('a')));
    assert_eq!(process_input(WM_CHAR, 'é' as usize, 0, false, false), Some(InputEvent::Text('é')));
    assert_eq!(process_input(WM_CHAR, 0x0D, 0, false, false), None);
    assert_eq!(process_input(WM_CHAR, 0x85, 0, false, false), None);
    assert_eq!(process_input(WM_CHAR, 0xD800, 0, false, false), None);
    assert_eq!(process_input(0x9999, 0, 0, false, false), None);
}

#[test]
fn key_messages() {
    assert_eq!(get_key(0x30), Some(Key::Num(0)));
    assert_eq!(get_key(0x39), Some(Key::Num(9)));
    assert_eq!(get_key(0x41), Some(Letter('A')));
    assert_eq!(get_key(0x5A), Some(Letter('Z')));
    assert_eq!(get_key(0xC0), Some(Key::Backtick));
    assert_eq!(get_key(0x1_0025), Some(Key::ArrowLeft));
    assert_eq!(get_key(0x70), None);
    assert_eq!(process_input(WM_KEYDOWN, 0x20, 0, false, false), Some(InputEvent::Text(' ')));
    assert_eq!(process_input(WM_KEYDOWN, 0x56, 0, true, false), Some(InputEvent::Paste));
    assert_eq!(process_input(WM_KEYDOWN, 0x43, 0, true, false), Some(InputEvent::Copy));
    assert_eq!(process_input(WM_KEYDOWN, 0x58, 0, true, false), Some(InputEvent::Cut));
    assert_eq!(
        process_input(WM_KEYDOWN, 0x56, 0, false, true),
        Some(InputEvent::Key {
            key: Letter('V'),
            pressed: true,
            modifiers: Modifiers { alt: false, ctrl: false, shift: true, mac_cmd: false, command: false }
        })
    );
    assert_eq!(
        process_input(WM_SYSKEYDOWN, 0x0D, 0, false, false),
        Some(InputEvent::Key {
            key: Key::Enter,
            pressed: true,
            modifiers: Modifiers { alt: true, ctrl: false, shift: false, mac_cmd: false, command: false }
        })
    );
    assert_eq!(
        process_input(WM_KEYUP, 0x1B, 0, false, false),
        Some(InputEvent::Key { key: Key::Escape, pressed: false, modifiers: NO_MODS })
    );
    assert_eq!(
        process_input(WM_SYSKEYUP, 0x09, 0, false, false),
        Some(InputEvent::Key { key: Key::Tab, pressed: false, modifiers: NO_MODS })
    );
    assert_eq!(process_input(WM_KEYUP, 0x70, 0, false, false), None);
}

#[test]
fn rtti_names_and_kinds() {
    assert_eq!(RTTIKind::from_tag(4), Some(RTTIKind::Compound));
    assert_eq!(RTTIKind::from_tag(8), None);
    assert_eq!(RTTIKind::EnumFlags.to_string(), "enum flags");
    assert_eq!(RTTIKind::POD.to_string(), "pod");
    assert!(RTTIKind::EnumBitSet.is_enum());
    assert!(!RTTIKind::Atom.is_enum());
    assert_eq!(ExportedSymbolKind::Unk10.to_string(), "Unk10");
    let container = RTTINames { kind: RTTIKind::Container, name: "Array".to_string(), data_name: "int".to_string() };
    assert_eq!(rtti_name(&container), "Array<int>");
    assert_eq!(rtti_base_name(&container), "int");
    let atom = RTTINames { kind: RTTIKind::Atom, name: "float".to_string(), data_name: String::new() };
    assert_eq!(rtti_name(&atom), "float");
    assert_eq!(rtti_base_name(&atom), "float");
}

#[test]
fn enum_value_aliases() {
    assert_eq!(rtti_value_aliases(&vec![None, Some("x".to_string())]), None);
    assert_eq!(
        rtti_value_aliases(&vec![Some("a".to_string()), None, Some("b".to_string()), None]),
        Some(vec!["a".to_string(), "b".to_string()])
    );
}

#[test]
fn rtti_plausibility() {
    let r = ScanRanges { data_start: 0x1000, data_end: 0x2000, rdata_start: 0x3000, rdata_end: 0x4000 };
    assert!(is_valid_ptr(&r, 0x1000));
    assert!(!is_valid_ptr(&r, 0x2000));
    assert!(is_valid_ptr(&r, 0x3FFF));
    assert!(!is_valid_ptr(&r, 0));
    let atom = RTTICandidate::Atom {
        size: 4, alignment: 4, fn_constructor: 0, fn_destructor: 0x1100, base_type: 0x3000, name_ptr: 0x3010,
    };
    assert!(is_plausible_rtti(&r, &atom));
    let bad_atom = RTTICandidate::Atom {
        size: 0, alignment: 4, fn_constructor: 0, fn_destructor: 0, base_type: 0x3000, name_ptr: 0x3010,
    };
    assert!(!is_plausible_rtti(&r, &bad_atom));
    let compound = RTTICandidate::Compound {
        name_ptr: 0x3000, bases_len: 0, bases: 0, attributes_len: 2, message_handlers_len: 0, message_handlers: 0,
        message_order_entries_len: 0, message_order_entries: 0, ordered_attributes_len: 0, ordered_attributes: 0,
    };
    assert!(!is_plausible_rtti(&r, &compound));
    assert!(!is_plausible_rtti(&r, &RTTICandidate::Other));
    assert!(is_plausible_rtti(&r, &RTTICandidate::Enum { enum_size: 1, name_ptr: 0x1000, values: 0x3000 }));
    assert!(is_plausible_rtti(&r, &RTTICandidate::Container { item_type: 0x1000, container_type: 0x1008, container_name_ptr: 0x3000 }));
}

#[test]
fn rtti_walk_is_preorder_without_repeats() {
    // 1 -> [2, 3], 2 -> [3, 0], 3 -> [1]
    let children = |n: usize| -> Vec<usize> {
        match n {
            1 => vec![2, 3],
            2 => vec![3, 0],
            3 => vec![1],
            _ => vec![],
        }
    };
    let mut walk = RTTIWalk::new(vec![], 1);
    let mut seen = vec![];
    while let Some(n) = walk.next() {
        seen.push(n);
        walk.expand(&children(n));
    }
    assert_eq!(seen, vec![1, 2, 3]);
    assert_eq!(walk.into_types(), vec![1, 2, 3]);
    let mut again = RTTIWalk::new(vec![1, 2, 3], 3);
    assert_eq!(again.next(), None);
    let mut null = RTTIWalk::new(vec![], 0);
    assert_eq!(null.next(), None);
}

#[test]
fn texture_layouts() {
    let l = upload_layout(64, 2);
    assert_eq!((l.row_size, l.pitch, l.size), (256, 256, 512));
    let l = upload_layout(65, 3);
    assert_eq!((l.row_size, l.pitch, l.size), (260, 512, 1536));
    let l = upload_layout(0, 5);
    assert_eq!((l.row_size, l.pitch, l.size), (0, 0, 0));
    assert_eq!(upload_copies(upload_layout(64, 2), 2, 512), vec![RowCopy { source: 0, destination: 0, length: 512 }]);
    assert_eq!(
        upload_copies(upload_layout(65, 2), 2, 520),
        vec![RowCopy { source: 0, destination: 0, length: 260 }, RowCopy { source: 260, destination: 260, length: 260 }]
    );
    assert!(upload_size_matches(4, 4, 4, 4, false));
    assert!(!upload_size_matches(4, 4, 2, 4, false));
    assert!(upload_size_matches(4, 4, 2, 2, true));
    assert_eq!(next_heap_capacity(8, 8), 16);
    assert_eq!(next_heap_capacity(8, 3), 8);
    assert_eq!(descriptor_address(0x1000, 3, 32), 0x1060);
    assert_eq!(texture_action(false, true, false), TextureAction::Create);
    assert_eq!(texture_action(true, false, true), TextureAction::UpdateRegion);
    assert_eq!(texture_action(false, false, true), TextureAction::Ignore);
    assert_eq!(texture_action(true, false, false), TextureAction::Ignore);
}

#[test]
fn initialization_steps() {
    let mut c: InitializationContext<&str, u32> = InitializationContext::Empty;
    c.insert_command_queue(7, true);
    assert!(matches!(c, InitializationContext::Empty));
    c.insert_swap_chain("sc");
    assert_eq!(c.awaiting_queue(), Some(&"sc"));
    c.insert_swap_chain("other");
    assert_eq!(c.awaiting_queue(), Some(&"sc"));
    c.insert_command_queue(7, false);
    assert!(c.get().is_none());
    c.insert_command_queue(8, true);
    assert_eq!(c.get(), Some((&"sc", &8)));
    c.done();
    assert!(matches!(c, InitializationContext::Done));
    c.insert_swap_chain("late");
    assert!(matches!(c, InitializationContext::Done));
    assert_eq!(find_pointer(&[1, 5, 9, 5], 5), Some(1));
    assert_eq!(find_pointer(&[1, 5, 9], 4), None);
}

#[test]
fn out_parameters() {
    let ok: Result<i32, &str> = try_out_ptr(|t: &mut Option<i32>| {
        *t = Some(3);
        Ok::<(), &str>(())
    });
    assert_eq!(ok, Ok(3));
    let err: Result<i32, &str> = try_out_ptr(|_t: &mut Option<i32>| Err::<(), &str>("no"));
    assert_eq!(err, Err("no"));
    let blob: Result<i32, (&str, String)> = try_out_err_blob(|_t: &mut Option<i32>, e: &mut Option<String>| {
        *e = Some("details".to_string());
        Err::<(), &str>("failed")
    });
    assert_eq!(blob, Err(("failed", "details".to_string())));
    let fine: Result<i32, (&str, String)> = try_out_err_blob(|t: &mut Option<i32>, _e: &mut Option<String>| {
        *t = Some(9);
        Ok::<u8, &str>(0)
    });
    assert_eq!(fine, Ok(9));
}

#[test]
fn window_toggles() {
    let mut ui = CauldronUI::new(vec![], Key::Backtick);
    assert!(!ui.is_visible());
    ui.before_render(false);
    assert!(!ui.is_visible());
    ui.before_render(true);
    assert!(ui.is_visible());
    ui.toggle_plugins();
    assert!(ui.ui_plugins_open);
    ui.before_render(true);
    assert!(!ui.is_visible());
    assert!(ui.ui_plugins_open);
}

use wave_engine::events::{EnumEvent, EnumEventMask, EnumEventMaskLabel};
use wave_engine::input::{EnumAction, EnumKey, EnumModifiers, EnumMouseButton};

#[test]
fn test_event_masking() {
    let window = EnumEventMask::Window();
    let inputs = EnumEventMask::Input();
    let keys = EnumEventMask::Keyboard();

    assert!(inputs.contains(keys));
    assert!(keys.intersects(inputs));

    assert_eq!(keys & EnumEventMask::Nothing(), keys.intersection(EnumEventMask::Nothing()));
    assert_eq!(keys | inputs, keys.union(inputs));
    assert_eq!(inputs & !keys, inputs.difference(keys));

    assert_ne!(keys.union(inputs), window);
}

#[test]
fn mask_flag_values() {
    assert_eq!(EnumEventMask::Nothing().bits(), 0);
    assert_eq!(EnumEventMask::All().bits(), 0xffff);
    assert_eq!(EnumEventMask::Window().bits(), 0b1011111100000000);
    assert_eq!(EnumEventMask::WindowClose().bits(), 0b1000100000000000);
    assert_eq!(EnumEventMask::Input().bits(), 0b0000000111111111);
    assert_eq!(EnumEventMask::Keyboard().bits(), 0b0000000100000010);
    assert_eq!(EnumEventMask::Mouse().bits(), 0b0000000100011100);
    assert_eq!(EnumEventMask::MouseBtn().bits(), 0b0000000100001000);
}

#[test]
fn mask_group_contains_its_kinds() {
    let window = EnumEventMask::Window();
    for m in [
        EnumEventMask::WindowIconify(),
        EnumEventMask::WindowMaximize(),
        EnumEventMask::WindowFocus(),
        EnumEventMask::WindowClose(),
        EnumEventMask::WindowSize(),
        EnumEventMask::WindowPos(),
    ] {
        assert!(window.contains(m));
        assert!(!EnumEventMask::Input().contains(m));
    }
    let mouse = EnumEventMask::Mouse();
    assert!(mouse.contains(EnumEventMask::MouseBtn()));
    assert!(mouse.contains(EnumEventMask::MouseScroll()));
    assert!(mouse.contains(EnumEventMask::CursorPos()));
    assert!(!mouse.contains(EnumEventMask::Keyboard()));
}

#[test]
fn mask_mutations() {
    let mut m = EnumEventMask::empty();
    assert!(m.is_empty());
    m.insert(EnumEventMask::Keyboard());
    assert_eq!(m, EnumEventMask::Keyboard());
    m.set(EnumEventMask::MouseBtn(), true);
    assert_eq!(m.bits(), 0b0000000100001010);
    m.remove(EnumEventMask::Keyboard());
    assert_eq!(m.bits(), 0b0000000000001000);
    m.toggle(EnumEventMask::MouseBtn());
    assert_eq!(m.bits(), 0b0000000100000000);
    m.set(EnumEventMask::All(), false);
    assert!(m.is_empty());
    assert!(EnumEventMask::all().is_all());
    assert_eq!(EnumEventMask::Keyboard().complement().bits(), !0b0000000100000010u16);
    assert_eq!(
        EnumEventMask::Keyboard().symmetric_difference(EnumEventMask::MouseBtn()).bits(),
        0b0000000000001010
    );
    assert_eq!(EnumEventMask::from_bits(7), Some(EnumEventMask(7)));
    assert_eq!(EnumEventMask::from_bits_truncate(9).bits(), 9);
    assert_eq!((EnumEventMask::Keyboard() ^ EnumEventMask::Keyboard()).bits(), 0);
    assert_eq!((EnumEventMask::All() - EnumEventMask::Input()).bits(), 0b1111111000000000);
}

#[test]
fn mask_of_each_event() {
    let key = EnumEvent::KeyEvent(EnumKey::A, EnumAction::Pressed, None, EnumModifiers::Shift());
    assert_eq!(EnumEventMask::from_event(&key), EnumEventMask::Keyboard());
    let btn = EnumEvent::MouseBtnEvent(EnumMouseButton::Left, EnumAction::Released, EnumModifiers(0));
    assert_eq!(EnumEventMask::from_event(&btn), EnumEventMask::MouseBtn());
    assert_eq!(EnumEventMask::from_event(&EnumEvent::FramebufferEvent(10, 20)), EnumEventMask::WindowSize());
    assert_eq!(EnumEventMask::from_event(&EnumEvent::WindowCloseEvent(0)), EnumEventMask::WindowClose());
    assert_eq!(EnumEventMask::from_event(&EnumEvent::UnknownEvent), EnumEventMask::empty());
    assert_eq!(
        EnumEventMask::from_event(&EnumEvent::DragAndDrop(vec![String::from("a.obj")])),
        EnumEventMask::DragAndDrop()
    );
}

fn pad() -> String {
    " ".repeat(115)
}

#[test]
fn mask_text_nothing_and_everything() {
    assert_eq!(
        EnumEventMask::Nothing().to_string(),
        format!("[0000000000000000]\n{}Events: Nothing (0000000000000000)", pad())
    );
    assert_eq!(
        EnumEventMask::All().to_string(),
        format!("[1111111111111111]\n{}Events: Everything (1111111111111111)", pad())
    );
}

#[test]
fn mask_text_lists_kinds() {
    let m = EnumEventMask::WindowClose() | EnumEventMask::WindowSize() | EnumEventMask::Keyboard();
    assert_eq!(
        m.to_string(),
        format!(
            "[{:016b}]\n{}Events: Window framebuffer (1001000000000000) | Window close (1000100000000000) | Window iconify (1000000100000000) | Keyboard (0000000100000010) ",
            m.bits(),
            pad()
        )
    );
    let all_input = EnumEventMask::Window() | EnumEventMask::Input();
    assert_eq!(
        all_input.to_string(),
        format!(
            "[{:016b}]\n{}Events: All window (1011111100000000) | All input (0000000111111111)",
            all_input.bits(),
            pad()
        )
    );
    assert_eq!(
        EnumEventMask::Mouse().describe(),
        vec![EnumEventMaskLabel::AllMouse]
    );
}

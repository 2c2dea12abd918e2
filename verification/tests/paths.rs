use komorebi::action::path::WindowsPath;
use komorebi::action::path::WindowsPathError;
use komorebi::adapters::socket_message::adapt_action;
use komorebi::adapters::socket_message::SocketActionAdapterError;
use komorebi::adapters::socket_message::SocketMessage;
use komorebi::animation_configuration::AnimationFps;
use komorebi::animation_configuration::AnimationFpsError;

fn surrogate_units() -> Vec<u16> {
    vec![b'C' as u16, b':' as u16, b'\\' as u16, 0xD800, b'x' as u16]
}

#[test]
fn unicode_path_round_trips() {
    let units: Vec<u16> = r"C:\Users\jonfo\レイアウト.json".encode_utf16().collect();
    let path = WindowsPath::new(units.clone()).unwrap();
    assert_eq!(path.as_units(), &units[..]);
    assert_eq!(path.clone().into_units(), units);
}

#[test]
fn direct_wtf16_construction_preserves_unpaired_surrogates() {
    let path = WindowsPath::from_wtf16(surrogate_units()).unwrap();
    assert_eq!(path.as_units(), &surrogate_units()[..]);
}

#[test]
fn wtf16_path_round_trips_without_replacement() {
    let path = WindowsPath::new(surrogate_units()).unwrap();
    let copy = path.duplicate();
    assert!(copy.same(&path));
    assert_eq!(copy.into_units(), surrogate_units());
}

#[test]
fn interior_nul_is_rejected() {
    assert_eq!(
        WindowsPath::new(vec![b'C' as u16, 0, b'x' as u16]),
        Err(WindowsPathError::InteriorNul)
    );
}

#[test]
fn adapter_rejects_a_custom_layout_path_with_an_interior_nul() {
    assert_eq!(
        adapt_action(&SocketMessage::ChangeLayoutCustom(vec![b'C' as u16, 0, b'x' as u16])),
        Err(SocketActionAdapterError::InvalidParameters)
    );
}

#[test]
fn fps_excludes_the_engine_division_by_zero_state() {
    assert_eq!(AnimationFps::new(60).map(AnimationFps::get), Ok(60));
    assert_eq!(AnimationFps::new(0), Err(AnimationFpsError));
}

use clawtype_chords::keycodes::{KeyWithFlags, BACKSPACE, SPACE};
use clawtype_chords::usb_simpler::ForDevice;
use clawtype_chords::{lookup_in_slice, top_bit, LayerOutcome, UsbOutcome};

#[test]
fn top_bit_examples() {
    assert_eq!(top_bit(0), 0);
    assert_eq!(top_bit(1), 1);
    assert_eq!(top_bit(2), 2);
    assert_eq!(top_bit(3), 2);
    assert_eq!(top_bit(0b0000_1010), 0b0000_1000);
    assert_eq!(top_bit(0b0101_0101), 0b0100_0000);
    assert_eq!(top_bit(255), 128);
}

#[test]
fn lookup_in_slice_finds_first_match() {
    let layout: Vec<(u8, LayerOutcome<KeyWithFlags>)> = vec![
        (0b0000_0010, LayerOutcome::Emit(UsbOutcome::KeyHit(SPACE))),
        (0b0000_1000, LayerOutcome::TemporaryLayerSwitch { layer: 1 }),
        (0b0000_0010, LayerOutcome::Emit(UsbOutcome::KeyHit(BACKSPACE))),
    ];
    match lookup_in_slice(0b0000_0010, &layout) {
        Some(LayerOutcome::Emit(UsbOutcome::KeyHit(k))) => assert_eq!(*k, SPACE),
        _ => panic!("expected the first matching entry"),
    }
    match lookup_in_slice(0b0000_1000, &layout) {
        Some(LayerOutcome::TemporaryLayerSwitch { layer }) => assert_eq!(*layer, 1),
        _ => panic!("expected the layer switch entry"),
    }
    assert!(lookup_in_slice(0b0000_0001, &layout).is_none());
}

#[test]
fn for_device_buffers_start_zeroed() {
    let buf = ForDevice::new();
    assert_eq!(buf.config_descriptor.len(), 256);
    assert_eq!(buf.bos_descriptor.len(), 256);
    assert_eq!(buf.msos_descriptor.len(), 256);
    assert_eq!(buf.control_buf.len(), 64);
    assert!(buf.config_descriptor.iter().all(|b| *b == 0));
    assert!(buf.bos_descriptor.iter().all(|b| *b == 0));
    assert!(buf.msos_descriptor.iter().all(|b| *b == 0));
    assert!(buf.control_buf.iter().all(|b| *b == 0));
}

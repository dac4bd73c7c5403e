use resin_printer::drivers::delay::{
    count_cycles, delay_cycles, delay_ms, delay_ns, delay_ns_compensated, delay_us,
};
use resin_printer::drivers::touch_screen::{
    cmd_u12, compile_stable_sample, Packet, TouchEvent, TouchScreen, TouchStep,
};
use resin_printer::drivers::usb::channels::Direction;
use resin_printer::file_formats::ctb::{
    color_7bpp_to_8bpp, FileError, Header, Layer, RleDecoder, RleState, XorEngine,
};
use resin_printer::file_formats::photon;
use resin_printer::util::io::{BufReader, DirectionBuffer};

fn ctb_header(magic: u32) -> Vec<u8> {
    let mut bytes = vec![0u8; 112];
    bytes[0..4].copy_from_slice(&magic.to_le_bytes());
    bytes[4..8].copy_from_slice(&3u32.to_le_bytes());
    bytes[52..56].copy_from_slice(&3840u32.to_le_bytes());
    bytes[56..60].copy_from_slice(&2400u32.to_le_bytes());
    bytes[64..68].copy_from_slice(&0x1000u32.to_le_bytes());
    bytes[68..72].copy_from_slice(&250u32.to_le_bytes());
    bytes[100..104].copy_from_slice(&0xCAFE_F00Du32.to_le_bytes());
    bytes
}

#[test]
fn delays_in_cycles() {
    assert_eq!(delay_cycles(120), 80);
    assert_eq!(delay_cycles(1), 0);
    // 1000 ns at 168 MHz are 168 cycles, two thirds of which are counted.
    assert_eq!(delay_ns(1000), 112);
    assert_eq!(delay_ns(0), 0);
    assert_eq!(delay_ns_compensated(1000, 18), 100);
    assert_eq!(delay_ns_compensated(1000, 168), 0);
    assert_eq!(delay_ns_compensated(1000, 500), 0);
    assert_eq!(delay_us(1), 112);
    assert_eq!(delay_us(0), 0);
    assert_eq!(delay_ms(1), 112_000);
    assert_eq!(delay_ms(10), 1_120_000);
}

#[test]
fn cycle_counts_wrap_around() {
    assert_eq!(count_cycles(100, 168_100), (168_000, 1));
    assert_eq!(count_cycles(u32::MAX, 9), (10, 0));
    assert_eq!(count_cycles(5, 5), (0, 0));
}

#[test]
fn direction_buffers() {
    let bytes = [1u8, 2, 3];
    let out = DirectionBuffer::Out(&bytes);
    assert_eq!(out.len(), 3);
    assert!(!out.is_empty());
    assert_eq!(out.dir(), Direction::Out);
    let input = DirectionBuffer::In(512);
    assert_eq!(input.len(), 512);
    assert_eq!(input.dir(), Direction::In);
    assert!(DirectionBuffer::In(0).is_empty());
    assert!(DirectionBuffer::Out(&[]).is_empty());
}

#[test]
fn buffered_reader_counts_down() {
    let mut reader = BufReader::new(2500);
    assert_eq!(reader.next(1024), Some(1024));
    reader.consumed(1024);
    assert_eq!(reader.next(1024), Some(1024));
    reader.consumed(1000);
    assert_eq!(reader.next(1024), Some(476));
    reader.consumed(476);
    assert_eq!(reader.next(1024), None);
    assert_eq!(BufReader::new(0).next(16), None);
}

#[test]
fn grey_is_widened() {
    assert_eq!(color_7bpp_to_8bpp(0), 0);
    assert_eq!(color_7bpp_to_8bpp(0x7F), 0xFF);
    assert_eq!(color_7bpp_to_8bpp(0x40), 0x81);
    assert_eq!(color_7bpp_to_8bpp(0x3F), 0x7E);
    assert_eq!(color_7bpp_to_8bpp(1), 2);
}

#[test]
fn ctb_header_is_read() {
    let header = Header::from_bytes(&ctb_header(0x12FD0086)).unwrap();
    assert_eq!(header.magic, 0x12FD0086);
    assert_eq!(header.version, 3);
    assert_eq!((header.resolution_x, header.resolution_y), (3840, 2400));
    assert_eq!(header.layers_offset, 0x1000);
    assert_eq!(header.num_layers, 250);
    assert_eq!(header.xor_key, 0xCAFE_F00D);
    assert_eq!(header.check_magic(), Ok(()));
    assert_eq!(Header::from_bytes(&ctb_header(0x12FD0106)).unwrap().check_magic(), Ok(()));
    assert_eq!(
        Header::from_bytes(&ctb_header(0x12FD0000)).unwrap().check_magic(),
        Err(FileError::BadMagic)
    );
    assert_eq!(Header::from_bytes(&ctb_header(0x12FD0086)[..111]), None);
    assert_eq!(header.layer_offset(0), Some(0x1000));
    assert_eq!(header.layer_offset(2), Some(0x1000 + 72));
    assert_eq!(header.layer_offset(250), None);
    let far = Header { layers_offset: u32::MAX - 10, ..header };
    assert_eq!(far.layer_offset(0), Some(u32::MAX - 10));
    assert_eq!(far.layer_offset(1), None);
}

#[test]
fn ctb_layer_is_read() {
    let mut bytes = vec![0u8; 36];
    bytes[12..16].copy_from_slice(&0x0002_0000u32.to_le_bytes());
    bytes[16..20].copy_from_slice(&4321u32.to_le_bytes());
    bytes[24..28].copy_from_slice(&84u32.to_le_bytes());
    let layer = Layer::from_bytes(&bytes).unwrap();
    assert_eq!(layer, Layer { image_offset: 0x0002_0000, image_size: 4321, table_size: 84 });
    assert_eq!(Layer::from_bytes(&bytes[..35]), None);
}

#[test]
fn runs_are_decoded() {
    let layer = Layer { image_offset: 0, image_size: 0, table_size: 0 };
    assert_eq!(layer.for_each_pixels(&[]), Ok(vec![]));
    // Single pixels.
    assert_eq!(layer.for_each_pixels(&[0x00, 0x7F, 0x40]), Ok(vec![(0, 1), (255, 1), (0x81, 1)]));
    // A run with a one-byte length.
    assert_eq!(layer.for_each_pixels(&[0xFF, 0x7F]), Ok(vec![(255, 127)]));
    assert_eq!(layer.for_each_pixels(&[0x80, 0x00]), Ok(vec![(0, 0)]));
    // Two, three and four bytes of length.
    assert_eq!(layer.for_each_pixels(&[0x80, 0x81, 0x02]), Ok(vec![(0, 0x0102)]));
    assert_eq!(layer.for_each_pixels(&[0xFF, 0xBF, 0xFF]), Ok(vec![(255, 0x3FFF)]));
    assert_eq!(layer.for_each_pixels(&[0x81, 0xC1, 0x02, 0x03]), Ok(vec![(2, 0x010203)]));
    assert_eq!(
        layer.for_each_pixels(&[0x81, 0xEF, 0xFF, 0xFE, 0xFD]),
        Ok(vec![(2, 0x0FFF_FEFD)])
    );
    // Runs and pixels mixed: a whole 4K screen black, then one white pixel.
    assert_eq!(
        layer.for_each_pixels(&[0x80, 0xE0, 0x8C, 0xA0, 0x00, 0x7F]),
        Ok(vec![(0, 3840 * 2400), (255, 1)])
    );
}

#[test]
fn broken_runs_are_told() {
    let layer = Layer { image_offset: 0, image_size: 0, table_size: 0 };
    let corrupted = Err(FileError::Corrupted);
    // No byte starts with five set bits.
    assert_eq!(layer.for_each_pixels(&[0x80, 0xF0]), corrupted);
    assert_eq!(layer.for_each_pixels(&[0x80, 0xFF]), corrupted);
    // The data ends within a run.
    assert_eq!(layer.for_each_pixels(&[0x80]), corrupted);
    assert_eq!(layer.for_each_pixels(&[0x80, 0x81]), corrupted);
    assert_eq!(layer.for_each_pixels(&[0x00, 0x80, 0xE0, 0x01, 0x02]), corrupted);
}

#[test]
fn decoder_steps() {
    let mut decoder = RleDecoder::new();
    assert!(decoder.finished());
    assert_eq!(decoder.push(0x85), Ok(None));
    assert_eq!(decoder.state, RleState::WaitingForHeader);
    assert!(!decoder.finished());
    assert_eq!(decoder.push(0xC0), Ok(None));
    assert_eq!(decoder.state, RleState::WaitingForRLEByte(2));
    assert_eq!(decoder.push(0x01), Ok(None));
    assert_eq!(decoder.state, RleState::WaitingForRLEByte(1));
    assert_eq!(decoder.push(0x00), Ok(Some((10, 256))));
    assert!(decoder.finished());
    let mut decoder = RleDecoder::new();
    decoder.push(0x80).unwrap();
    let before = decoder;
    assert_eq!(decoder.push(0xF5), Err(FileError::Corrupted));
    assert_eq!(decoder, before);
}

#[test]
fn cipher_key_stream() {
    let engine = XorEngine::new(0, 0);
    assert_eq!(engine.k1, 0xd8a83423);
    assert_eq!(engine.k2, 0xec3d47cdu32.wrapping_mul(0xd8a83423));
    assert_eq!(engine.offset_mod4, 0);
    let engine = XorEngine::new(3, 0x1234_5678);
    let k1 = 0x1234_5678u32.wrapping_mul(0x2d83cdac).wrapping_add(0xd8a83423);
    assert_eq!(engine.k1, k1);
    assert_eq!(engine.k2, 3u32.wrapping_mul(0x1e1530cd).wrapping_add(0xec3d47cd).wrapping_mul(k1));
}

#[test]
fn cipher_deciphers_what_it_enciphered() {
    let plain: Vec<u8> = (0..1000u32).map(|i| (i * 7 + 1) as u8).collect();
    let mut data = plain.clone();
    let mut engine = XorEngine::new(12, 0xCAFE_F00D);
    let start = engine;
    engine.process(&mut data);
    assert_ne!(data, plain);
    // The key bytes are those of the key word, lowest first, and the key
    // word moves on by k1 after four bytes.
    for i in 0..8 {
        let word = if i < 4 { start.k2 } else { start.k1.wrapping_add(start.k2) };
        assert_eq!(data[i] ^ plain[i], (word >> (8 * (i % 4))) as u8);
    }
    assert_eq!(engine.offset_mod4, 0);
    let mut again = XorEngine::new(12, 0xCAFE_F00D);
    again.process(&mut data);
    assert_eq!(data, plain);
}

#[test]
fn cipher_works_in_pieces() {
    let plain: Vec<u8> = (0..50u32).map(|i| (i * 13) as u8).collect();
    let mut whole = plain.clone();
    XorEngine::new(1, 99).process(&mut whole);
    let mut engine = XorEngine::new(1, 99);
    let mut first = plain[..7].to_vec();
    let mut second = plain[7..].to_vec();
    engine.process(&mut first);
    assert_eq!(engine.offset_mod4, 3);
    engine.process(&mut second);
    first.extend_from_slice(&second);
    assert_eq!(first, whole);
}

#[test]
fn photon_sections_are_read() {
    let mut bytes = b"ANYCUBIC\0\0\0\0".to_vec();
    for v in [1u32, 4, 0x30, 0, 0x100, 0x200, 0x300, 0x400, 0x500, 0x600] {
        bytes.extend_from_slice(&v.to_le_bytes());
    }
    let header = photon::Header::from_bytes(&bytes).unwrap();
    assert_eq!(&header.magic, b"ANYCUBIC\0\0\0\0");
    assert_eq!((header.version, header.area_num, header.config1_offset), (1, 4, 0x30));
    assert_eq!((header.preview_offset, header.preview_end_offset), (0x100, 0x200));
    assert_eq!(header.layer_definition_offset, 0x300);
    assert_eq!((header.config2_offset, header.machine_offset), (0x400, 0x500));
    assert_eq!(header.layer_image_offset, 0x600);
    assert!(photon::Header::from_bytes(&bytes[..51]).is_none());

    let mut bytes = b"PREVIEW\0\0\0\0\0".to_vec();
    for v in [12u32, 224, 42, 168] {
        bytes.extend_from_slice(&v.to_le_bytes());
    }
    let preview = photon::Preview::from_bytes(&bytes).unwrap();
    assert_eq!((preview.length, preview.resolution_x, preview.dpi, preview.resolution_y), (12, 224, 42, 168));
    assert_eq!(preview.body_len(), 224 * 168 * 2);
    assert!(photon::Preview::from_bytes(&bytes[..27]).is_none());

    let mut bytes = b"LAYERDEF\0\0\0\0".to_vec();
    for v in [8004u32, 250] {
        bytes.extend_from_slice(&v.to_le_bytes());
    }
    let table = photon::LayerDefinition::from_bytes(&bytes).unwrap();
    assert_eq!((table.length, table.layer_count), (8004, 250));
    assert!(photon::LayerDefinition::from_bytes(&bytes[..19]).is_none());
}

#[test]
fn touch_readings() {
    assert_eq!(cmd_u12(0xFF, 0xFF), 0x0FFF);
    assert_eq!(cmd_u12(0x12, 0x34), 0x0123);
    assert_eq!(cmd_u12(0, 0x0F), 0);
    let event = TouchEvent::try_from(Packet { x: 1500, y: 2000, z1: 100, z2: 200 }).unwrap();
    // x = (4096 - 2000) / 11 - 36, y = 1500 / 15 - 15, z = 200 * 1500 / (100 * 128)
    assert_eq!(event, TouchEvent { x: 154, y: 85, z: 23 });
    let corner = TouchEvent::try_from(Packet { x: 100, y: 4000, z1: 2, z2: 0 }).unwrap();
    assert_eq!(corner, TouchEvent { x: 0, y: 0, z: 0 });
    assert_eq!(TouchEvent::try_from(Packet { x: 1500, y: 2000, z1: 1, z2: 200 }), Err(()));
    assert_eq!(TouchEvent::try_from(Packet { x: 1500, y: 2000, z1: 0, z2: 200 }), Err(()));
}

#[test]
fn stable_samples() {
    let sample = |x, y, z| TouchEvent { x, y, z };
    let steady = [sample(100, 50, 40); 8];
    assert_eq!(compile_stable_sample(&steady), Some(sample(100, 50, 40)));
    let mut spread = steady;
    spread[0].x = 96;
    spread[7].x = 104;
    spread[3].y = 58;
    spread[5].z = 80;
    assert_eq!(compile_stable_sample(&spread), Some(sample(100, 51, 45)));
    let mut light = steady;
    light[7].z = 81;
    assert_eq!(compile_stable_sample(&light), None);
    let mut jumpy = steady;
    jumpy[2].x = 110;
    assert_eq!(compile_stable_sample(&jumpy), None);
    let mut jumpy = steady;
    jumpy[2].y = 30;
    assert_eq!(compile_stable_sample(&jumpy), None);
    assert_eq!(compile_stable_sample(&[sample(65535, 65535, 80); 8]), Some(sample(65535, 65535, 80)));
}

#[test]
fn touches_begin_and_end() {
    let touch = Some(TouchEvent { x: 1, y: 2, z: 3 });
    let mut screen = TouchScreen::new();
    assert_eq!(screen.get_next_touch_event(None), TouchStep::Sleep);
    assert_eq!(screen.get_next_touch_event(touch), TouchStep::Report(touch));
    assert_eq!(screen.get_next_touch_event(touch), TouchStep::Report(touch));
    assert_eq!(screen.get_next_touch_event(None), TouchStep::Report(None));
    assert_eq!(screen.get_next_touch_event(None), TouchStep::Sleep);
}

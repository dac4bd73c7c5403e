use resin_printer::drivers::display::BusWord::{Cmd, Data};
use resin_printer::drivers::display::{
    draw_iter, fill_screen, start_drawing, start_drawing_full_screen, write_data_as_two_u8,
};
use resin_printer::drivers::lcd::canvas;
use resin_printer::drivers::lcd::lcd_fpga::{wait_ready, BitstreamHeader, BitstreamMetadata};
use resin_printer::drivers::touch_screen::{scale, StableSampler, TouchEvent};
use resin_printer::drivers::lcd::mono4k;
use resin_printer::drivers::lcd::saturn;
use resin_printer::drivers::usb::usb_host::{
    fifo_layout, maybe_change_port_speed, on_host_port_interrupt, wait_for_event, Event,
    PortInterrupt, PortSpeed, WaitStep,
};
use resin_printer::drivers::usb::UsbError;
use resin_printer::util::bitbang_spi::{clock_edge_to_edge_duration_ns, xfer, xfer_u16};

/// The pixels that a stream for the FPGA draws: the grey byte of each.
fn decode(bytes: &[u8]) -> Vec<u8> {
    let mut pixels = Vec::new();
    for &b in bytes {
        if b >= 0x80 {
            pixels.push(b);
        } else {
            let last = *pixels.last().unwrap();
            for _ in 0..b {
                pixels.push(last);
            }
        }
    }
    pixels
}

#[test]
fn runs_for_the_fpga() {
    let mut fb = saturn::Framebuffer::new();
    assert_eq!(fb.push_pixels(0, 10), Vec::<u8>::new());
    assert_eq!(fb.push_pixels(1, 5), Vec::<u8>::new());
    assert_eq!(fb.color_repeat, 15);
    // Black: one pixel and 14 repetitions.
    assert_eq!(fb.push_pixels(0xFF, 3), vec![0x80, 14]);
    assert_eq!((fb.color, fb.color_repeat, fb.total_pixel_count), (0x7F, 3, 15));
    // White is scaled to 0x7C.
    assert_eq!(fb.flush_pixels(), vec![0xFC, 2]);
    assert_eq!((fb.color_repeat, fb.total_pixel_count), (0, 18));
    assert_eq!(fb.flush_pixels(), Vec::<u8>::new());
}

#[test]
fn repetitions_stop_at_125_and_at_the_window() {
    let mut fb = saturn::Framebuffer::new();
    fb.push_pixels(0x80, 300);
    let bytes = fb.push_pixels(0, 0);
    assert_eq!(bytes, vec![0xBE, 125, 125, 49]);

    // 1920 pixels fill the window: the next pixel starts a new one.
    let mut fb = saturn::Framebuffer::new();
    fb.push_pixels(0x80, 1921);
    let bytes = fb.flush_pixels();
    let mut expected = vec![0xBE];
    expected.extend_from_slice(&[125; 15]);
    expected.push(44);
    // Pixel 1920 lies on the boundary: it is drawn, and nothing repeated.
    expected.push(0xBE);
    assert_eq!(bytes, expected);
    assert_eq!(decode(&bytes).len(), 1921);

    // A run that starts at the boundary draws one pixel without repetition.
    let mut fb = saturn::Framebuffer { color: 1, color_repeat: 3, total_pixel_count: 1919 };
    assert_eq!(fb.flush_pixels(), vec![0x80, 0x80, 1]);
}

#[test]
fn a_whole_screen_is_drawn_pixel_for_pixel() {
    let mut fb = saturn::Framebuffer::new();
    let mut bytes = Vec::new();
    let mut expected = 0usize;
    for (i, &len) in [1u32, 1919, 1, 5000, 3, 1920, 77, 123_456].iter().enumerate() {
        bytes.extend(fb.push_pixels(if i % 2 == 0 { 0 } else { 0xFF }, len));
        expected += len as usize;
    }
    bytes.extend(fb.flush_pixels());
    let pixels = decode(&bytes);
    assert_eq!(pixels.len(), expected);
    assert_eq!(fb.total_pixel_count as usize, expected);
    assert!(bytes.iter().all(|&b| b >= 0x80 || (b > 0 && b <= 125)));
    // No repetition crosses a boundary of 1920 pixels.
    let mut at = 0usize;
    for &b in &bytes {
        if b >= 0x80 {
            at += 1;
        } else {
            assert!(at % 1920 != 0);
            assert!((at - 1) / 1920 == (at + b as usize - 1) / 1920);
            at += b as usize;
        }
    }
}

/// The words that pixels pushed one by one make.
fn pack_naively(pending: &mut Vec<u8>, color: u8, repeat: u32) -> Vec<u16> {
    let mut words = Vec::new();
    for _ in 0..repeat {
        pending.push(color >> 4);
        if pending.len() == 4 {
            words.push(pending.iter().fold(0u16, |w, &p| (w << 4) | p as u16));
            pending.clear();
        }
    }
    words
}

fn expand(plan: mono4k::framebuffer::PushPlan) -> Vec<u16> {
    let mut words: Vec<u16> = plan.head.into_iter().collect();
    words.extend(std::iter::repeat(plan.fill).take(plan.fill_count as usize));
    words
}

#[test]
fn four_pixels_make_a_word() {
    let mut fb = mono4k::Framebuffer::new();
    assert_eq!(expand(fb.push_pixels(0xA0, 4)), vec![0xAAAA]);
    assert_eq!(expand(fb.push_pixels(0x1F, 1)), Vec::<u16>::new());
    assert_eq!(expand(fb.push_pixels(0x2F, 1)), Vec::<u16>::new());
    assert_eq!((fb.pending_pixels, fb.pending_pixels_cnt), (0x12, 2));
    assert_eq!(expand(fb.push_pixels(0x30, 7)), vec![0x1233, 0x3333]);
    assert_eq!((fb.pending_pixels, fb.pending_pixels_cnt), (0x3, 1));
    assert_eq!(expand(fb.push_pixels(0x40, 0)), Vec::<u16>::new());
    assert_eq!(expand(fb.push_pixels(0xF0, 3)), vec![0x3FFF]);
    assert_eq!(fb.pending_pixels_cnt, 0);
}

#[test]
fn packing_is_the_same_as_pixel_by_pixel() {
    let mut fb = mono4k::Framebuffer::new();
    let mut pending = Vec::new();
    let mut seed = 12345u32;
    for _ in 0..2000 {
        seed = seed.wrapping_mul(1_103_515_245).wrapping_add(12345);
        let color = (seed >> 16) as u8;
        let repeat = (seed >> 8) % 11;
        let expected = pack_naively(&mut pending, color, repeat);
        assert_eq!(expand(fb.push_pixels(color, repeat)), expected);
        assert_eq!(fb.pending_pixels_cnt as usize, pending.len());
        assert_eq!(fb.pending_pixels, pending.iter().fold(0u16, |w, &p| (w << 4) | p as u16));
    }
    let plan = fb.push_pixels(0x50, 3840 * 2400);
    assert!(plan.fill_count >= 3840 * 2400 / 4 - 1);
    assert_eq!(plan.fill, 0x5555);
}

#[test]
fn patterns() {
    assert_eq!(canvas::set_all_black(), (0, 9_216_000));
    assert_eq!(canvas::set_all_white(), (255, 9_216_000));
    assert_eq!(canvas::stripes(0, 4), (0, 2_304_000));
    assert_eq!(canvas::stripes(1, 4), (255, 2_304_000));
    assert_eq!(canvas::stripes(2, 7), (0, 1_316_571));
    assert_eq!(canvas::gradient(0), (0, 3840));
    assert_eq!(canvas::gradient(1200), (127, 3840));
    assert_eq!(canvas::gradient(2399), (254, 3840));
    assert_eq!(canvas::checker(0, 0, 10), 255);
    assert_eq!(canvas::checker(10, 0, 10), 0);
    assert_eq!(canvas::checker(10, 10, 10), 255);
    assert_eq!(canvas::checker(9, 10, 10), 0);
    assert_eq!(canvas::waves(0, 5, 8, 100), 255);
    assert_eq!(canvas::waves(5, 200, 8, 100), 255);
    // 8 * 255 * 1201 * 1921 / 9_216_000 = 510, of which the low byte counts
    assert_eq!(canvas::waves(1201, 1921, 8, 100), 254);
    assert_eq!(canvas::waves(1, 1, 8, 100), 0);
}

#[test]
fn lcd_commands() {
    assert_eq!(saturn::lcd::Command::MaskDisplay.cmd(), 0xfe00);
    assert_eq!(saturn::lcd::Command::GetResolution.cmd(), 0xfe04);
    assert_eq!(saturn::lcd::Command::StartDrawing.cmd(), 0xfefd);
    assert_eq!(
        saturn::lcd::start_drawing_raw().map(|c| c.cmd()),
        [0xfe00, 0xfe10, 0xfe20, 0xfefd]
    );
    assert_eq!(saturn::lcd::wait_for_reply(&[0, 0xfbfd]), Ok(()));
    assert_eq!(saturn::lcd::wait_for_reply(&[0, 0, 0xfbfd]), Ok(()));
    assert_eq!(saturn::lcd::wait_for_reply(&[0, 0, 0, 0xfbfd]), Err(()));
    assert_eq!(saturn::lcd::wait_for_reply(&[]), Err(()));
    assert_eq!(saturn::lcd::get_resolution(0x000F), 0x0F00);
    assert_eq!(saturn::lcd::get_resolution(0x6009), 0x0960);
    assert_eq!(mono4k::lcd::Command::GetVersion.cmd(), [0xF0, 0]);
    assert_eq!(mono4k::lcd::Command::StartDrawing.cmd(), [0xFB, 0]);
    assert_eq!(mono4k::lcd::Command::SetPalette.cmd(), [0xF1, 0]);
    assert_eq!(mono4k::lcd::Command::GetPalette.cmd(), [0xF2, 0]);
    assert_eq!(mono4k::lcd::get_version(&[0x1234, 0xABCD]), 0xABCD_1234);
    let palette = mono4k::lcd::default_palette();
    assert_eq!(palette[0], 0);
    assert_eq!(palette[7], 0x77);
    assert_eq!(palette[15], 0xff);
}

#[test]
fn fifo_memory_is_divided() {
    let layout = fifo_layout();
    assert_eq!((layout.rx_depth, layout.non_periodic_start, layout.non_periodic_depth), (128, 128, 96));
    assert_eq!((layout.periodic_start, layout.periodic_depth), (224, 64));
}

#[test]
fn port_speed_changes() {
    assert_eq!(
        maybe_change_port_speed(PortSpeed::Full, PortSpeed::Full, true),
        (48_000, false, None)
    );
    assert_eq!(
        maybe_change_port_speed(PortSpeed::Low, PortSpeed::Full, true),
        (6_000, true, Some(Event::NeedPortReset))
    );
    assert_eq!(maybe_change_port_speed(PortSpeed::Low, PortSpeed::Full, false), (6_000, true, None));
}

#[test]
fn port_interrupts() {
    let none = PortInterrupt { pcdet: false, penchng: false, pena: false, poca: false };
    let actions = on_host_port_interrupt(PortInterrupt { pcdet: true, ..none });
    assert!(actions.device_detected && !actions.port_enabled);
    assert_eq!(actions.disconnections, 0);
    let actions = on_host_port_interrupt(PortInterrupt { penchng: true, pena: true, ..none });
    assert!(actions.port_enabled);
    assert_eq!(actions.disconnections, 0);
    let actions = on_host_port_interrupt(PortInterrupt { penchng: true, ..none });
    assert!(!actions.port_enabled);
    assert_eq!(actions.disconnections, 1);
    let actions = on_host_port_interrupt(PortInterrupt { penchng: true, poca: true, ..none });
    assert_eq!(actions.disconnections, 2);
    // An enabled port that has not changed asks for nothing.
    let actions = on_host_port_interrupt(PortInterrupt { pena: true, ..none });
    assert!(!actions.port_enabled && !actions.device_detected);
}

#[test]
fn waiting_for_port_events() {
    assert_eq!(
        wait_for_event(Event::DeviceDetected, Event::DeviceDetected),
        WaitStep::Finished(Ok(()))
    );
    assert_eq!(
        wait_for_event(Event::PortReady, Event::Disconnected),
        WaitStep::Finished(Err(UsbError::DeviceDisconnected))
    );
    assert_eq!(wait_for_event(Event::PortReady, Event::NeedPortReset), WaitStep::ResetPort);
    assert_eq!(wait_for_event(Event::Disconnected, Event::Disconnected), WaitStep::Finished(Ok(())));
}

#[test]
fn spi_bits_go_most_significant_first() {
    let (mosi, rx) = xfer(0b1010_0011, &[false; 8]);
    assert_eq!(mosi, [true, false, true, false, false, false, true, true]);
    assert_eq!(rx, 0);
    let (_, rx) = xfer(0, &[true, false, false, false, false, false, false, true]);
    assert_eq!(rx, 0x81);
    let (_, rx) = xfer(0, &[true; 8]);
    assert_eq!(rx, 0xFF);
    let (mosi, rx) = xfer(0x5A, &[false, true, false, true, true, false, true, false]);
    assert_eq!(rx, 0x5A);
    assert_eq!(mosi, [false, true, false, true, true, false, true, false]);
    // Two edges for every bit at 5 MHz: 100 ns between them.
    assert_eq!(clock_edge_to_edge_duration_ns(5_000_000), 100);
    assert_eq!(clock_edge_to_edge_duration_ns(2_000_000), 250);
}

#[test]
fn bitstream_is_sent_in_chunks() {
    let meta = BitstreamMetadata::from_flash(&BitstreamHeader { magic: 0x12FD0022, size: 2500 }).unwrap();
    assert_eq!(meta, BitstreamMetadata { offset: 0x79008, size: 2500 });
    assert_eq!(BitstreamMetadata::from_flash(&BitstreamHeader { magic: 0x12FD0086, size: 2500 }), None);
    assert_eq!(meta.upload_bitstream(0), Some((0x79008, 1024)));
    assert_eq!(meta.upload_bitstream(1), Some((0x79008 + 1024, 1024)));
    assert_eq!(meta.upload_bitstream(2), Some((0x79008 + 2048, 452)));
    assert_eq!(meta.upload_bitstream(3), None);
    let exact = BitstreamMetadata { offset: 0, size: 2048 };
    assert_eq!(exact.upload_bitstream(1), Some((1024, 1024)));
    assert_eq!(exact.upload_bitstream(2), None);
    assert_eq!(BitstreamMetadata { offset: 0, size: 0 }.upload_bitstream(0), None);
    assert!(wait_ready(0));
    assert!(wait_ready(99));
    assert!(!wait_ready(100));
}

#[test]
fn drawing_window() {
    assert_eq!(write_data_as_two_u8(0x1234), [Data(0x12), Data(0x34)]);
    assert_eq!(
        start_drawing((5, 300), (258, 320)),
        [Cmd(0x2A), Data(0), Data(5), Data(1), Data(1), Cmd(0x2B), Data(1), Data(44), Data(1), Data(63), Cmd(0x2C)]
    );
    assert_eq!(start_drawing_full_screen(), start_drawing((0, 0), (480, 320)));
    assert_eq!(fill_screen(), 153_600);
    assert!(draw_iter(0, 0));
    assert!(draw_iter(480, 320));
    assert!(!draw_iter(481, 0));
    assert!(!draw_iter(0, 321));
    assert!(!draw_iter(-1, 5));
}

#[test]
fn touch_sampler_wants_eight_consistent_samples() {
    let mut sampler = StableSampler::new();
    let sample = TouchEvent { x: 200, y: 100, z: 30 };
    for _ in 0..7 {
        assert_eq!(sampler.get_stable_sample(sample), None);
    }
    assert_eq!(sampler.get_stable_sample(sample), Some(sample));
    // A jump makes the samples inconsistent until it has left the window.
    let far = TouchEvent { x: 300, y: 100, z: 30 };
    assert_eq!(sampler.get_stable_sample(far), None);
    for _ in 0..7 {
        assert_eq!(sampler.get_stable_sample(sample), None);
    }
    assert_eq!(sampler.get_stable_sample(sample), Some(sample));
    // After 256 samples the count starts over.
    let mut sampler = StableSampler::new();
    for _ in 0..255 {
        sampler.get_stable_sample(sample);
    }
    assert_eq!(sampler.num_samples, 255);
    assert_eq!(sampler.get_stable_sample(sample), None);
    assert_eq!(sampler.num_samples, 0);

    assert_eq!(scale(2230, 2230, 4000, 0, 479), Ok(0));
    assert_eq!(scale(3999, 2230, 4000, 0, 479), Ok(478));
    assert_eq!(scale(3115, 2230, 4000, 0, 479), Ok(239));
    assert_eq!(scale(985, 100, 1870, 0, 319), Ok(159));
    assert_eq!(scale(4000, 2230, 4000, 0, 479), Err(()));
    assert_eq!(scale(2229, 2230, 4000, 0, 479), Err(()));
}

#[test]
fn spi_words_of_sixteen_bits() {
    let (mosi, rx) = xfer_u16(0xA003, &[false; 16]);
    assert_eq!(
        mosi,
        [
            true, false, true, false, false, false, false, false, false, false, false, false,
            false, false, true, true,
        ]
    );
    assert_eq!(rx, 0);
    let mut miso = [false; 16];
    miso[0] = true;
    miso[15] = true;
    assert_eq!(xfer_u16(0, &miso).1, 0x8001);
    miso[7] = true;
    assert_eq!(xfer_u16(0xFFFF, &miso).1, 0x8101);
    assert_eq!(xfer_u16(0, &[true; 16]).1, 0xFFFF);
    let (mosi, _) = xfer_u16(0xFBFD, &[false; 16]);
    assert_eq!(xfer_u16(0, &mosi).1, 0xFBFD);
}

use rustboy::cardridge::Cardridge;
use rustboy::cpu::Cpu;
use rustboy::memory_map::MemoryMap;
use rustboy::settings::Settings;

fn cpu_with(cart: Vec<u8>) -> Cpu {
    let cardridge = Cardridge { memory: cart };
    Cpu {
        b: 1,
        c: 2,
        d: 3,
        e: 4,
        h: 5,
        l: 6,
        a: 7,

        f: 0,
        cycle_counter: 0,
        memory_counter: 0,
        stack_counter: 0,
        stopped: false,
        memory_map: MemoryMap::new(cardridge),
    }
}

#[test]
fn test_register_roundtrip_all_indices() {
    for index in [0u8, 1, 2, 3, 4, 5, 7] {
        let mut cpu = cpu_with(vec![0x40, 0x41, 0x42]);
        cpu.store_value_into_register(0xab, index);
        assert_eq!(cpu.get_value_from_register(index), 0xab);
    }
}

#[test]
fn test_ldrr_touches_only_destination() {
    let mut cpu = cpu_with(vec![0x40, 0x41, 0x42]);
    cpu.run_opcode(0x41); // LD B, C
    assert_eq!(cpu.b, 2);
    assert_eq!(cpu.c, 2);
    assert_eq!(cpu.d, 3);
    assert_eq!(cpu.e, 4);
    assert_eq!(cpu.h, 5);
    assert_eq!(cpu.l, 6);
    assert_eq!(cpu.a, 7);
    cpu.run_opcode(0x41); // a second identical load changes no register
    assert_eq!(cpu.b, 2);
    assert_eq!(cpu.c, 2);
    assert_eq!(cpu.d, 3);
    assert_eq!(cpu.e, 4);
    assert_eq!(cpu.h, 5);
    assert_eq!(cpu.l, 6);
    assert_eq!(cpu.a, 7);
}

#[test]
fn test_add_literal_trace() {
    // A=7, B=0xF0: 7 + 0xF0 = 0xF7, no flag set.
    let mut cpu = cpu_with(vec![0x40, 0x41, 0x42]);
    cpu.a = 7;
    cpu.b = 0xf0;
    cpu.run_opcode(0x80);
    assert_eq!(cpu.a, 0xf7);
    assert!(!cpu.get_flag_z());
    assert!(!cpu.get_flag_n());
    assert!(!cpu.get_flag_h());
    assert!(!cpu.get_flag_c());
    // A=0xFA, B=0x06: wraps to zero with half-carry and carry.
    let mut cpu = cpu_with(vec![0x40, 0x41, 0x42]);
    cpu.a = 0xfa;
    cpu.b = 0x06;
    cpu.run_opcode(0x80);
    assert_eq!(cpu.a, 0);
    assert!(cpu.get_flag_z());
    assert!(!cpu.get_flag_n());
    assert!(cpu.get_flag_h());
    assert!(cpu.get_flag_c());
}

#[test]
fn test_sub_no_half_borrow_on_equal_nibbles() {
    // A=0xF8, B=0x08: low nibbles are equal, so no half-borrow.
    let mut cpu = cpu_with(vec![0x40, 0x41, 0x42]);
    cpu.a = 0xf8;
    cpu.b = 0x08;
    cpu.run_opcode(0x90);
    assert_eq!(cpu.a, 0xf0);
    assert!(!cpu.get_flag_z());
    assert!(cpu.get_flag_n());
    assert!(!cpu.get_flag_h());
    assert!(!cpu.get_flag_c());
}

#[test]
fn test_and_or_xor_flag_register() {
    // AND: F is 0x20 with the Z bit or'd in.
    let mut cpu = cpu_with(vec![0x40, 0x41, 0x42]);
    cpu.a = 0x0f;
    cpu.b = 0xf0;
    cpu.run_opcode(0xa0);
    assert_eq!(cpu.a, 0);
    assert_eq!(cpu.f, 0xa0);
    let mut cpu = cpu_with(vec![0x40, 0x41, 0x42]);
    cpu.a = 0x03;
    cpu.b = 0x01;
    cpu.run_opcode(0xa0);
    assert_eq!(cpu.a, 0x01);
    assert_eq!(cpu.f, 0x20);
    // OR: F is 0x00 with the Z bit or'd in.
    let mut cpu = cpu_with(vec![0x40, 0x41, 0x42]);
    cpu.a = 0x00;
    cpu.b = 0x00;
    cpu.run_opcode(0xb0);
    assert_eq!(cpu.a, 0);
    assert_eq!(cpu.f, 0x80);
    let mut cpu = cpu_with(vec![0x40, 0x41, 0x42]);
    cpu.a = 0x01;
    cpu.b = 0x02;
    cpu.run_opcode(0xb0);
    assert_eq!(cpu.a, 0x03);
    assert_eq!(cpu.f, 0x00);
    // XOR: F is 0x00 with the Z bit or'd in.
    let mut cpu = cpu_with(vec![0x40, 0x41, 0x42]);
    cpu.a = 0x05;
    cpu.b = 0x05;
    cpu.run_opcode(0xa8);
    assert_eq!(cpu.a, 0);
    assert_eq!(cpu.f, 0x80);
}

#[test]
fn test_start_cycle_runs_whole_cartridge() {
    // 0x40 LD B,B; 0x41 LD B,C; 0x42 LD B,D over B=1, C=2, D=3.
    let mut cpu = cpu_with(vec![0x40, 0x41, 0x42]);
    cpu.start_cycle();
    assert_eq!(cpu.memory_counter, 3);
    assert_eq!(cpu.b, 3);
    assert_eq!(cpu.c, 2);
    assert_eq!(cpu.d, 3);
}

#[test]
fn test_start_cycle_stopped_is_a_no_op() {
    let mut cpu = cpu_with(vec![0x40, 0x41, 0x42]);
    cpu.stopped = true;
    cpu.start_cycle();
    assert_eq!(cpu.memory_counter, 0);
    assert_eq!(cpu.cycle_counter, 0);
    assert_eq!(cpu.b, 1);
}

#[test]
fn test_start_cycle_truncated_instruction_returns() {
    // A 16-bit load whose operands lie past the cartridge end terminates
    // the cycle without advancing.
    let mut cpu = cpu_with(vec![0x01]);
    cpu.start_cycle();
    assert_eq!(cpu.memory_counter, 0);
    assert_eq!(cpu.cycle_counter, 0);
}

#[test]
fn test_start_cycle_resets_cycle_budget() {
    // A cartridge of NOPs: 17477 of them cross the 69905-cycle budget, and
    // the counter resets to zero before returning.
    let mut cpu = cpu_with(vec![0u8; 20000]);
    cpu.start_cycle();
    assert_eq!(cpu.memory_counter, 17477);
    assert_eq!(cpu.cycle_counter, 0);
}

#[test]
fn test_stop_consumes_two_bytes() {
    let mut cpu = cpu_with(vec![0x10, 0x00, 0x40]);
    cpu.run_opcode(0x10);
    assert_eq!(cpu.memory_counter, 2);
    assert!(!cpu.stopped);
}

#[test]
fn test_unknown_opcode_lands_in_a() {
    // 0xC3 has no handler: the byte is stored into A and PC advances by 1.
    let mut cpu = cpu_with(vec![0xc3, 0x40]);
    cpu.run_opcode(0xc3);
    assert_eq!(cpu.a, 0xc3);
    assert_eq!(cpu.memory_counter, 1);
}

#[test]
fn test_inc_dec_sp_write_back() {
    let mut cpu = cpu_with(vec![0x40]);
    cpu.stack_counter = 0xffff;
    cpu.run_opcode(0x33);
    assert_eq!(cpu.stack_counter, 0);
    cpu.run_opcode(0x3b);
    assert_eq!(cpu.stack_counter, 0xffff);
}

#[test]
fn test_ld_hl_plus_stores_then_increments() {
    // LD (HL+), A stores at the old HL, then increments the pair.
    let mut cpu = cpu_with(vec![0x40]);
    cpu.set_hl(0x1234);
    cpu.a = 0x5a;
    cpu.run_opcode(0x22);
    assert_eq!(cpu.memory_map.get_8bit_full_address(0x1234), 0x5a);
    assert_eq!(cpu.get_hl(), 0x1235);
}

#[test]
fn test_ld_a16_immediates_are_low_byte_first() {
    // Cartridge [0xEA, 0xFF, 0x80, 0xFA, 0xFF, 0x80] with A=7: the store
    // lands at 0x80FF, and the load reads it back.
    let mut cpu = cpu_with(vec![0xea, 0xff, 0x80, 0xfa, 0xff, 0x80]);
    cpu.run_opcode(0xea);
    assert_eq!(cpu.memory_map.get_8bit_full_address(0x80ff), 7);
    cpu.a = 0xff;
    cpu.run_opcode(0xfa);
    assert_eq!(cpu.a, 7);
}

#[test]
fn test_daa_literal_traces() {
    // A=0x7E, F=0: adjusts to 0x84 with C and Z clear.
    let mut cpu = cpu_with(vec![0x40]);
    cpu.a = 0x7e;
    cpu.f = 0;
    cpu.daa();
    assert_eq!(cpu.a, 0x84);
    assert!(!cpu.get_flag_c());
    assert!(!cpu.get_flag_z());
    // A=0x89, F=0xF0: adjusts to 0x23.
    let mut cpu = cpu_with(vec![0x40]);
    cpu.a = 0x89;
    cpu.f = 0xf0;
    cpu.daa();
    assert_eq!(cpu.a, 0x23);
}

#[test]
fn test_joypad_buttons_patterns() {
    // With selection 0x10 stored, every 4-bit button pattern reads back as
    // 0x10 | pattern.
    for p in 0u8..=0x0f {
        let mut mm = MemoryMap::new(Cardridge { memory: vec![] });
        mm.store_8bit_full_address(0xff00, 0x10);
        mm.store_buttons(p);
        assert_eq!(mm.get_8bit_full_address(0xff00), 0x10 | p);
    }
}

#[test]
fn test_joypad_d_pad_pattern() {
    // D-pad 0x0A with selection 0x20 written to 0xFF00 reads back as 0x2A.
    let mut mm = MemoryMap::new(Cardridge { memory: vec![] });
    mm.store_d_pad(0x0a);
    mm.store_8bit_full_address(0xff00, 0x20);
    assert_eq!(mm.get_8bit_full_address(0xff00), 0x2a);
}

#[test]
fn test_joypad_neither_and_both_selected() {
    let mut mm = MemoryMap::new(Cardridge { memory: vec![] });
    mm.store_buttons(0x05);
    mm.store_d_pad(0x0a);
    mm.store_8bit_full_address(0xff00, 0x30);
    assert_eq!(mm.get_8bit_full_address(0xff00), 0x3f);
    mm.store_8bit_full_address(0xff00, 0x00);
    assert_eq!(mm.get_8bit_full_address(0xff00), 0x00);
}

#[test]
fn test_new_processor_initializes_joypad_selection() {
    let cpu = Cpu::new(Cardridge { memory: vec![0x40, 0x41, 0x42] });
    assert_eq!(cpu.b, 0);
    assert_eq!(cpu.a, 0);
    assert_eq!(cpu.memory_counter, 0);
    // 0x30 written at init: neither matrix selected, so reads give 0x3F.
    assert_eq!(cpu.memory_map.get_8bit_full_address(0xff00), 0x3f);
}

#[test]
fn test_zero_page_helpers() {
    let mut mm = MemoryMap::new(Cardridge { memory: vec![] });
    mm.store_8bit(0x80, 55);
    assert_eq!(mm.get_8bit(0x80), 55);
    assert_eq!(mm.get_8bit_full_address(0xff80), 55);
}

#[test]
fn test_cardridge_len_and_get() {
    let cart = Cardridge { memory: vec![9, 8, 7] };
    assert_eq!(cart.len(), 3);
    assert_eq!(cart.get(0), 9);
    assert_eq!(cart.get(2), 7);
}

#[test]
fn test_settings_default_scale() {
    let settings = Settings::default();
    assert_eq!(settings.render_scale, 1);
}

#[test]
fn test_screen_is_full_background_grid() {
    let mm = MemoryMap::new(Cardridge { memory: vec![] });
    let screen = mm.renderer.get_screen();
    assert_eq!(screen.len(), 161 * 145);
    // Row-major order with both edges included, all white at power-on.
    assert_eq!(screen[0].x, 0);
    assert_eq!(screen[0].y, 0);
    assert_eq!(screen[160].x, 160);
    assert_eq!(screen[160].y, 0);
    assert_eq!(screen[161].x, 0);
    assert_eq!(screen[161].y, 1);
    let last = &screen[161 * 145 - 1];
    assert_eq!(last.x, 160);
    assert_eq!(last.y, 144);
    for p in [&screen[0], &screen[7], &screen[161 * 145 - 1]] {
        assert_eq!((p.color.r, p.color.g, p.color.b), (255, 255, 255));
    }
}

#[test]
fn test_screen_decodes_tile_planes() {
    let mut mm = MemoryMap::new(Cardridge { memory: vec![] });
    // lcdc 0x18: map area 0x9800, data area 0x8000 (mirrored via 0xFF40).
    mm.store_8bit_full_address(0xff40, 0x18);
    // Map entry 0 names tile 1; tile 1's first row has lo=0x80, hi=0x01.
    mm.store_8bit_full_address(0x9800, 1);
    mm.store_8bit_full_address(0x8010, 0x80);
    mm.store_8bit_full_address(0x8011, 0x01);
    let screen = mm.renderer.get_screen();
    // Pixel (0,0): lo bit 7 set, hi bit 7 clear: index 1, light grey.
    assert_eq!((screen[0].color.r, screen[0].color.g, screen[0].color.b), (169, 169, 169));
    // Pixel (7,0): lo bit 0 clear, hi bit 0 set: index 2, dark grey.
    assert_eq!((screen[7].color.r, screen[7].color.g, screen[7].color.b), (105, 105, 105));
    // Pixel (1,0): both bits clear: white.
    assert_eq!((screen[1].color.r, screen[1].color.g, screen[1].color.b), (255, 255, 255));
}

#[test]
fn test_sprite_layer_single_sprite() {
    let mut mm = MemoryMap::new(Cardridge { memory: vec![] });
    // OAM entry 0: on-screen (0,0), tile 0, no flags (mirrored via 0xFE00).
    mm.store_8bit_full_address(0xfe00, 16);
    mm.store_8bit_full_address(0xfe01, 8);
    // Tile 0: all bytes 0xFF, so every pixel has index 3 (black).
    for i in 0..16 {
        mm.store_8bit_full_address(0x8000 + i, 0xff);
    }
    let layer = mm.renderer.get_sprites_from_screen();
    // 8 covered pixels on each of 8 scanlines.
    assert_eq!(layer.len(), 64);
    assert_eq!(layer[0].x, 0);
    assert_eq!(layer[0].y, 0);
    assert_eq!((layer[0].color.r, layer[0].color.g, layer[0].color.b), (0, 0, 0));
    assert_eq!(layer[63].x, 7);
    assert_eq!(layer[63].y, 7);
}

#[test]
fn test_sprite_layer_two_sprites_render_fully() {
    let mut mm = MemoryMap::new(Cardridge { memory: vec![] });
    // Two adjacent sprites cover 16 pixels of each scanline; both are well
    // under the ten-sprite cap, so every covered pixel is emitted.
    mm.store_8bit_full_address(0xfe00, 16);
    mm.store_8bit_full_address(0xfe01, 8);
    mm.store_8bit_full_address(0xfe04, 16);
    mm.store_8bit_full_address(0xfe05, 16);
    for i in 0..16 {
        mm.store_8bit_full_address(0x8000 + i, 0xff);
    }
    let layer = mm.renderer.get_sprites_from_screen();
    assert_eq!(layer.len(), 128);
    assert_eq!(layer[8].x, 8);
    assert_eq!(layer[8].y, 0);
    assert_eq!(layer[15].x, 15);
    assert_eq!(layer[15].y, 0);
    assert_eq!(layer[16].x, 0);
    assert_eq!(layer[16].y, 1);
}

#[test]
fn test_sprite_layer_caps_ten_sprites_per_line() {
    let mut mm = MemoryMap::new(Cardridge { memory: vec![] });
    // Eleven sprites share the same scanlines; the hardware cap admits the
    // first ten (in x order), and the eleventh contributes nothing, while
    // every pixel of the admitted ten still renders.
    for k in 0..11 {
        mm.store_8bit_full_address(0xfe00 + 4 * k, 16);
        mm.store_8bit_full_address(0xfe01 + 4 * k, (8 + 8 * k) as u8);
    }
    for i in 0..16 {
        mm.store_8bit_full_address(0x8000 + i, 0xff);
    }
    let layer = mm.renderer.get_sprites_from_screen();
    // Ten sprites cover x in 0..80 on each of eight scanlines.
    assert_eq!(layer.len(), 640);
    assert_eq!(layer[79].x, 79);
    assert_eq!(layer[79].y, 0);
    assert_eq!(layer[80].x, 0);
    assert_eq!(layer[80].y, 1);
}

#[test]
fn test_sprite_x_flip() {
    let mut mm = MemoryMap::new(Cardridge { memory: vec![] });
    // Sprite at (0,0) with x-flip; tile row 0 has only column 0 set.
    mm.store_8bit_full_address(0xfe00, 16);
    mm.store_8bit_full_address(0xfe01, 8);
    mm.store_8bit_full_address(0xfe03, 0x20);
    mm.store_8bit_full_address(0x8000, 0x80);
    let layer = mm.renderer.get_sprites_from_screen();
    // The lit pixel appears at column 7; column 0 is white.
    assert_eq!((layer[0].color.r, layer[0].color.g, layer[0].color.b), (255, 255, 255));
    assert_eq!(layer[7].x, 7);
    assert_eq!((layer[7].color.r, layer[7].color.g, layer[7].color.b), (169, 169, 169));
}

#[test]
fn test_video_writes_mirror_into_memory_array() {
    let mut mm = MemoryMap::new(Cardridge { memory: vec![] });
    mm.store_8bit_full_address(0x8123, 0x42);
    assert_eq!(mm.get_8bit_full_address(0x8123), 0x42);
    mm.store_8bit_full_address(0xfe10, 0x17);
    assert_eq!(mm.get_8bit_full_address(0xfe10), 0x17);
    mm.store_8bit_full_address(0xff40, 0x91);
    assert_eq!(mm.get_8bit_full_address(0xff40), 0x91);
}

use rustboy::cardridge::Cardridge;
use rustboy::cpu::Cpu;
use rustboy::memory_map::MemoryMap;

fn get_cpu() -> Cpu {
    let vec1: Vec<u8> = vec![0x40, 0x41, 0x42];
    let cardridge = Cardridge { memory: vec1 };
    Cpu {
        b: 1,
        c: 2,
        d: 3,
        e: 4,
        h: 5,
        l: 6,
        a: 7,

        f: 0,
        cycle_counter: 0,
        memory_counter: 0,
        stack_counter: 0,
        stopped: false,
        memory_map: MemoryMap::new(cardridge),
    }
}

#[test]
fn test_sra() -> Result<(), String> {
    let mut cpu = get_cpu();
    cpu.b = 0xff;
    cpu.sra(0);
    assert_eq!(0xff, cpu.b);
    assert!(cpu.get_flag_c());
    Ok(())
}

#[test]
fn test_rr() -> Result<(), String> {
    let mut cpu = get_cpu();
    cpu.b = 2;
    cpu.rr(0);
    assert_eq!(1, cpu.b);
    assert!(!cpu.get_flag_c());
    cpu.b = 0xff;
    cpu.rr(0);
    assert_eq!(0xff - 0x80, cpu.b);
    assert!(cpu.get_flag_c());
    cpu.b = 0;
    cpu.rr(0);
    assert_eq!(0x80, cpu.b);
    Ok(())
}

#[test]
fn test_rl() -> Result<(), String> {
    let mut cpu = get_cpu();
    cpu.b = 1;
    cpu.rl(0);
    assert_eq!(2, cpu.b);
    assert!(!cpu.get_flag_c());
    cpu.b = 0xff;
    cpu.rl(0);
    assert_eq!(0xfe, cpu.b);
    assert!(cpu.get_flag_c());

    Ok(())
}

#[test]
fn test_rrc() -> Result<(), String> {
    let mut cpu = get_cpu();
    cpu.rrc(0);
    assert_eq!(0x80, cpu.b);
    Ok(())
}

#[test]
fn test_rlc() -> Result<(), String> {
    let mut cpu = get_cpu();
    cpu.rlc(0);
    assert_eq!(2, cpu.b);
    Ok(())
}

#[test]
fn test_add_16bit() -> Result<(), String> {
    let mut cpu = get_cpu();
    cpu.set_hl(0x1234);
    cpu.b = 0xff;
    cpu.c = 0;
    cpu.run_opcode(0x09);
    assert!(cpu.get_flag_h());
    assert!(cpu.get_flag_c());
    assert!(!cpu.get_flag_n());
    Ok(())
}

#[test]
fn test_set_hl() -> Result<(), String> {
    let mut cpu = get_cpu();
    cpu.set_hl(0x1234);
    assert_eq!(cpu.h, 0x12);
    assert_eq!(cpu.l, 0x34);

    Ok(())
}

#[test]
fn test_rrca() -> Result<(), String> {
    let mut cpu = get_cpu();
    cpu.a = 2;
    cpu.rrca();
    assert_eq!(1, cpu.a);
    assert!(!cpu.get_flag_c());
    cpu.a = 0xff;
    cpu.rrca();
    assert_eq!(0xff, cpu.a);
    assert!(cpu.get_flag_c());

    Ok(())
}

#[test]
fn test_rra() -> Result<(), String> {
    let mut cpu = get_cpu();
    cpu.a = 2;
    cpu.rra();
    assert_eq!(1, cpu.a);
    assert!(!cpu.get_flag_c());
    cpu.a = 0xff;
    cpu.rra();
    assert_eq!(0xff - 0x80, cpu.a);
    assert!(cpu.get_flag_c());

    Ok(())
}

#[test]
fn test_rcla() -> Result<(), String> {
    let mut cpu = get_cpu();
    cpu.a = 1;
    cpu.rcla();
    assert_eq!(2, cpu.a);
    assert!(!cpu.get_flag_c());
    cpu.a = 0xff;
    cpu.rcla();
    assert_eq!(0xff, cpu.a);
    assert!(cpu.get_flag_c());

    Ok(())
}

#[test]
fn test_rla() -> Result<(), String> {
    let mut cpu = get_cpu();
    cpu.a = 1;
    cpu.rla();
    assert_eq!(2, cpu.a);
    assert!(!cpu.get_flag_c());
    cpu.a = 0xff;
    cpu.rla();
    assert_eq!(0xfe, cpu.a);
    assert!(cpu.get_flag_c());

    Ok(())
}

#[test]
fn test_ld_bc() -> Result<(), String> {
    let mut cpu = get_cpu();
    cpu.ld_bc();
    assert_eq!(0x41, cpu.b);
    assert_eq!(0x42, cpu.c);
    Ok(())
}

#[test]
fn test_incbc() -> Result<(), String> {
    let mut cpu = get_cpu();
    cpu.c = 255;
    cpu.incbc();
    assert_eq!(2, cpu.b);
    assert_eq!(0, cpu.c);
    cpu.c = 255;
    cpu.b = 255;
    cpu.incbc();
    assert_eq!(0, cpu.b);
    assert_eq!(0, cpu.c);
    cpu.incbc();
    assert_eq!(0, cpu.b);
    assert_eq!(1, cpu.c);
    Ok(())
}

#[test]
fn test_decbc() -> Result<(), String> {
    let mut cpu = get_cpu();
    cpu.c = 0;
    cpu.decbc();
    assert_eq!(0, cpu.b);
    assert_eq!(255, cpu.c);
    cpu.c = 0;
    cpu.b = 0;
    cpu.decbc();
    assert_eq!(255, cpu.b);
    assert_eq!(255, cpu.c);
    cpu.decbc();
    assert_eq!(255, cpu.b);
    assert_eq!(254, cpu.c);
    Ok(())
}

#[test]
fn test_scf() -> Result<(), String> {
    let mut cpu = get_cpu();
    cpu.run_opcode(0x37);
    assert_eq!(true, cpu.get_flag_c());
    assert_eq!(false, cpu.get_flag_h());
    assert_eq!(false, cpu.get_flag_n());
    cpu.f = 0xff;
    cpu.run_opcode(0x37);
    assert_eq!(true, cpu.get_flag_c());
    assert_eq!(false, cpu.get_flag_h());
    assert_eq!(false, cpu.get_flag_n());
    Ok(())
}

#[test]
fn test_cpl() -> Result<(), String> {
    let mut cpu = get_cpu();
    cpu.run_opcode(0x2f);
    assert_eq!(cpu.a, 0xff - 0x07);
    Ok(())
}

#[test]
fn test_ccf() -> Result<(), String> {
    let mut cpu = get_cpu();
    assert_eq!(cpu.get_flag_c(), false);
    cpu.run_opcode(0x3f);
    assert_eq!(cpu.get_flag_c(), true);
    cpu.run_opcode(0x3f);
    assert_eq!(cpu.get_flag_c(), false);
    cpu.f = 0xff;
    cpu.run_opcode(0x3f);
    assert_eq!(cpu.f, 0x8f);
    Ok(())
}

#[test]
fn test_get_from_reg() -> Result<(), String> {
    let mut cpu = get_cpu();
    assert_eq!(cpu.get_value_from_register(0b000), 1);
    assert_eq!(cpu.get_value_from_register(0b001), 2);
    assert_eq!(cpu.get_value_from_register(0b010), 3);
    assert_eq!(cpu.get_value_from_register(0b011), 4);
    assert_eq!(cpu.get_value_from_register(0b100), 5);
    assert_eq!(cpu.get_value_from_register(0b101), 6);
    assert_eq!(cpu.get_value_from_register(0b111), 7);
    Ok(())
}

#[test]
fn test_store_in_reg() -> Result<(), String> {
    let mut cpu = get_cpu();
    cpu.store_value_into_register(8, 0b000);
    cpu.store_value_into_register(9, 0b001);
    cpu.store_value_into_register(10, 0b010);
    cpu.store_value_into_register(11, 0b011);
    cpu.store_value_into_register(12, 0b100);
    cpu.store_value_into_register(13, 0b101);
    cpu.store_value_into_register(14, 0b111);

    assert_eq!(cpu.get_value_from_register(0b000), 8);
    assert_eq!(cpu.get_value_from_register(0b001), 9);
    assert_eq!(cpu.get_value_from_register(0b010), 10);
    assert_eq!(cpu.get_value_from_register(0b011), 11);
    assert_eq!(cpu.get_value_from_register(0b100), 12);
    assert_eq!(cpu.get_value_from_register(0b101), 13);
    assert_eq!(cpu.get_value_from_register(0b111), 14);
    Ok(())
}

#[test]
fn test_memory_counter() -> Result<(), String> {
    let mut cpu = get_cpu();
    cpu.start_cycle();
    assert_eq!(cpu.memory_counter, 3);
    Ok(())
}

#[test]
fn test_ldrr() -> Result<(), String> {
    let mut cpu = get_cpu();
    cpu.run_opcode(0x41);
    cpu.run_opcode(0x50);
    assert_eq!(cpu.b, 2);
    assert_eq!(cpu.d, 2);
    Ok(())
}

#[test]
fn test_add() -> Result<(), String> {
    let mut cpu = get_cpu();
    cpu.run_opcode(0x80); // add b to a
    assert_eq!(cpu.a, 8);
    assert_eq!(cpu.get_flag_z(), false);
    assert_eq!(cpu.get_flag_n(), false);
    assert_eq!(cpu.get_flag_h(), false);
    assert_eq!(cpu.get_flag_c(), false);
    Ok(())
}

#[test]
fn test_add_zero_carry_halfcarry() -> Result<(), String> {
    let mut cpu = get_cpu();
    cpu.b = 0xff - 6;
    cpu.run_opcode(0x80); // add b to a
    assert_eq!(cpu.a, 0);
    assert_eq!(cpu.get_flag_z(), true);
    assert_eq!(cpu.get_flag_n(), false);
    assert_eq!(cpu.get_flag_h(), true);
    assert_eq!(cpu.get_flag_c(), true);
    Ok(())
}

#[test]
fn test_add_carry() -> Result<(), String> {
    let mut cpu = get_cpu();
    cpu.b = 0xf0;
    cpu.a = 0xf0;
    cpu.run_opcode(0x80); // add b to a
    assert_eq!(cpu.a, cpu.b.overflowing_add(0xf0).0);
    assert_eq!(cpu.get_flag_z(), false);
    assert_eq!(cpu.get_flag_n(), false);
    assert_eq!(cpu.get_flag_h(), false);
    assert_eq!(cpu.get_flag_c(), true);
    Ok(())
}

#[test]
fn test_adc() -> Result<(), String> {
    let mut cpu = get_cpu();
    cpu.f = 0xf0;
    cpu.run_opcode(0x88); // add b to a with carry
    assert_eq!(cpu.a, 9);
    assert_eq!(cpu.get_flag_c(), false);
    Ok(())
}

#[test]
fn test_ld_from_memory() -> Result<(), String> {
    let mut cpu = get_cpu();
    cpu.run_opcode(0xf0);
    assert_eq!(cpu.a, 0);
    Ok(())
}

#[test]
fn test_ld_from_cardridge() -> Result<(), String> {
    let mut cpu = get_cpu();
    cpu.run_opcode(0x3e);
    assert_eq!(cpu.a, 65);
    cpu = get_cpu();
    cpu.run_opcode(0x06);
    assert_eq!(cpu.b, 65);
    Ok(())
}

#[test]
fn test_ld_to_and_from_memory() -> Result<(), String> {
    let vec1: Vec<u8> = vec![0xe0, 0x80, 0xf0, 0x80];
    let cardridge = Cardridge { memory: vec1 };
    let mut cpu = get_cpu();
    cpu.memory_map = MemoryMap::new(cardridge);
    cpu.run_opcode(0xe0);
    cpu.a = 0xff;
    cpu.run_opcode(0xf0);
    assert_eq!(cpu.a, 7);
    Ok(())
}

#[test]
fn test_ld_to_and_from_memory_c() -> Result<(), String> {
    let mut cpu = get_cpu();
    cpu.c = 0x99;
    cpu.run_opcode(0xe2);
    cpu.a = 0xff;
    cpu.run_opcode(0xf2);
    assert_eq!(cpu.a, 7);
    Ok(())
}

#[test]
fn test_get_hl() -> Result<(), String> {
    let mut cpu = get_cpu();
    assert_eq!(cpu.get_hl(), 0x0506);
    Ok(())
}

#[test]
fn test_get_store_hl() -> Result<(), String> {
    let mut cpu = get_cpu();
    cpu.run_opcode(0x70);
    cpu.run_opcode(0x56);
    assert_eq!(cpu.d, cpu.b);
    Ok(())
}

#[test]
fn test_multiple_ld_to_memory() -> Result<(), String> {
    let mut cpu = get_cpu();
    cpu.run_opcode(0x02);
    cpu.run_opcode(0x12);
    cpu.run_opcode(0x22);
    cpu.run_opcode(0x32);

    assert_eq!(cpu.memory_map.get_8bit_full_address(0x0102), cpu.a);
    assert_eq!(cpu.memory_map.get_8bit_full_address(0x0304), cpu.a);
    assert_eq!(cpu.memory_map.get_8bit_full_address(0x0507), cpu.a);
    assert_eq!(cpu.memory_map.get_8bit_full_address(0x0506), cpu.a);
    assert_eq!(cpu.memory_map.get_8bit_full_address(0xffff), 0);
    Ok(())
}

#[test]
fn test_multiple_from_memory() -> Result<(), String> {
    let mut cpu = get_cpu();
    cpu.memory_map.store_8bit_full_address(0x0102, 10);
    cpu.memory_map.store_8bit_full_address(0x0304, 20);
    cpu.memory_map.store_8bit_full_address(0x0507, 30);
    cpu.memory_map.store_8bit_full_address(0x0506, 40);

    cpu.run_opcode(0x0a);
    assert_eq!(cpu.a, 10);
    cpu.run_opcode(0x1a);
    assert_eq!(cpu.a, 20);
    cpu.run_opcode(0x2a);
    assert_eq!(cpu.a, 30);
    cpu.run_opcode(0x3a);
    assert_eq!(cpu.a, 40);
    cpu.b = 0xff;
    cpu.c = 0xff;
    cpu.run_opcode(0x0a);
    assert_eq!(cpu.a, 0);
    cpu.l = 0xff;
    cpu.run_opcode(0x2a);
    assert_eq!(cpu.get_hl(), 0x0600);
    cpu.run_opcode(0x3a);
    assert_eq!(cpu.get_hl(), 0x05ff);
    Ok(())
}

// The reference processor reads 16-bit immediate addresses low byte first,
// so 0xEA here stores A at 0x80FF; the read-back checks that address.
#[test]
fn test_ld_to_and_from_a16() -> Result<(), String> {
    let vec1: Vec<u8> = vec![0xea, 0xff, 0x80, 0xfe, 0xff, 0x80];
    let cardridge = Cardridge { memory: vec1 };

    let mut cpu = get_cpu();
    cpu.memory_map.cardridge = cardridge;
    cpu.run_opcode(0xea);
    cpu.a = 0xff;
    cpu.run_opcode(0xfa);
    assert_eq!(cpu.a, 7);
    assert_eq!(cpu.memory_map.get_8bit_full_address(0x80ff), cpu.a);
    Ok(())
}

#[test]
fn test_h_flag() -> Result<(), String> {
    let mut cpu = get_cpu();
    cpu.a = 0xf8;
    cpu.b = 0x8;
    cpu.run_opcode(0x80);
    assert!(cpu.get_flag_h());
    Ok(())
}

#[test]
fn test_h_flag_and_sub() -> Result<(), String> {
    let mut cpu = get_cpu();
    cpu.a = 0xf8;
    cpu.b = 0x9;
    cpu.run_opcode(0x90);
    assert!(cpu.get_flag_h());
    assert_eq!(cpu.a, 0xef);
    cpu.run_opcode(0x90);
    assert!(!cpu.get_flag_h());
    assert_eq!(cpu.a, 0xe6);

    Ok(())
}

#[test]
fn test_sbc() -> Result<(), String> {
    let mut cpu = get_cpu();
    cpu.a = 0x8;
    cpu.b = 0x9;
    cpu.run_opcode(0x90);
    assert_eq!(cpu.a, 0xff);
    cpu.run_opcode(0x98);
    assert!(!cpu.get_flag_h());
    assert_eq!(cpu.a, 0xff - 0xa);

    Ok(())
}

#[test]
fn test_and_xor_or() -> Result<(), String> {
    let mut cpu = get_cpu();
    cpu.a = 0xfe;
    cpu.b = 0xdd;
    cpu.run_opcode(0xa0);
    assert_eq!(cpu.a, 0xdc);
    cpu.run_opcode(0xa8);
    assert_eq!(cpu.a, 0x01);
    cpu.run_opcode(0xb0);
    assert_eq!(cpu.a, 0xdd);
    Ok(())
}

#[test]
fn test_inc() -> Result<(), String> {
    let mut cpu = get_cpu();
    cpu.run_opcode(0x04);
    assert_eq!(cpu.b, 0x2);
    cpu.a = 0xf;
    cpu.run_opcode(0x3c);
    assert!(cpu.get_flag_h());
    Ok(())
}

#[test]
fn test_dec() -> Result<(), String> {
    let mut cpu = get_cpu();
    cpu.run_opcode(0x05);
    assert_eq!(cpu.b, 0x0);
    cpu.a = 0x10;
    cpu.run_opcode(0x3d);
    assert!(cpu.get_flag_h());
    Ok(())
}

#[test]
fn test_daa() -> Result<(), String> {
    let mut cpu = get_cpu();
    cpu.a = 0x7e;
    cpu.daa();
    assert_eq!(cpu.a, 0x84);
    assert!(!cpu.get_flag_c());
    cpu.f = 0xf0;
    cpu.a = 0x89;
    cpu.daa();
    assert_eq!(cpu.a, 0x23);
    cpu.f = 0xf0;
    cpu.a = 0x90;
    cpu.b = 0x09;
    cpu.run_opcode(0x90);
    cpu.daa();
    assert_eq!(cpu.a, 0x81);
    Ok(())
}

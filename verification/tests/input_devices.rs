use nes_core::bus::DataBus;
use nes_core::input::InputType;
use nes_core::input::Joypad;
use nes_core::input::ZapperGun;

#[test]
fn joypad_shifts_buttons_least_significant_first() {
    let mut pad = Joypad::new();
    pad.data = 0b1011_0001;
    pad.input(1);
    pad.input(0);
    let mut bits = Vec::new();
    for _ in 0..8 {
        bits.push(pad.output());
    }
    assert_eq!(bits, vec![1, 0, 0, 0, 1, 1, 0, 1]);
    // Once all eight buttons are consumed, further reads return 1.
    assert_eq!(pad.output(), 1);
    assert_eq!(pad.output(), 1);
}

#[test]
fn joypad_strobe_high_freezes_the_first_button() {
    let mut pad = Joypad::new();
    pad.data = 0b0000_0010;
    pad.input(1);
    assert_eq!(pad.output(), 0);
    assert_eq!(pad.output(), 0);
    pad.input(0);
    assert_eq!(pad.output(), 0);
    assert_eq!(pad.output(), 1);
}

#[test]
fn zapper_encodes_light_and_trigger() {
    let mut gun = ZapperGun::new();
    assert_eq!(gun.output(), 0b0000_1000);
    gun.light_sense = true;
    assert_eq!(gun.output(), 0);
    gun.trigger_pulled = true;
    assert_eq!(gun.output(), 0b0001_0000);
    gun.light_sense = false;
    assert_eq!(gun.output(), 0b0001_1000);
}

#[test]
fn disconnected_port_reads_zero() {
    let mut port = InputType::Disconnected;
    port.input(1);
    assert_eq!(port.output(), 0);
}

#[test]
fn controller_ports_reach_devices_through_the_bus() {
    let mut bus = DataBus::new();
    let mut pad = Joypad::new();
    pad.data = 0b0000_0101;
    bus.controller0 = Some(InputType::Joypad(pad));
    bus.write(0x4016, 1);
    bus.write(0x4016, 0);
    assert_eq!(bus.read(0x4016), 1);
    assert_eq!(bus.read(0x4016), 0);
    assert_eq!(bus.read(0x4016), 1);
    // An empty second port reads zero.
    assert_eq!(bus.read(0x4017), 0);
}

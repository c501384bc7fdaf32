//! Controller devices: the standard joypad, the light gun, and an empty port.

use vstd::prelude::*;

verus! {

/// A standard controller: an 8-bit button bitmap behind a strobe/shift pair.
/// Bit 0 = A, 1 = B, 2 = Select, 3 = Start, 4 = Up, 5 = Down, 6 = Left,
/// 7 = Right.
pub struct Joypad {
    pub shift: u8,
    pub strobe: bool,
    /// The button bitmap the host keeps up to date.
    pub data: u8,
}

impl Joypad {
    pub fn new() -> (r: Joypad)
        ensures
            r.shift == 0,
            !r.strobe,
            r.data == 0,
    {
        Joypad { shift: 0, strobe: false, data: 0 }
    }

    /// A strobe write: bit 0 latches the strobe; latching high resets the
    /// shift counter.
    pub fn input(&mut self, value: u8)
        ensures
            final(self).data == old(self).data,
            final(self).strobe == ((value & 1) != 0),
            final(self).shift == if (value & 1) != 0 {
                0u8
            } else {
                old(self).shift
            },
    {
        self.strobe = (value & 1) != 0;
        if self.strobe {
            self.shift = 0;
        }
    }

    /// The bit a read returns: buttons come out least-significant first,
    /// and once all eight are consumed further reads return 1.
    pub open spec fn output_bit_spec(self) -> u8 {
        if self.shift >= 8 {
            1
        } else {
            (self.data >> self.shift) & 1
        }
    }

    /// A controller-port read: hands out the next button bit and advances
    /// the shift counter unless the strobe is held high or all eight
    /// buttons are already consumed.
    pub fn output(&mut self) -> (r: u8)
        ensures
            r == old(self).output_bit_spec(),
            final(self).data == old(self).data,
            final(self).strobe == old(self).strobe,
            final(self).shift == if old(self).shift >= 8 || old(self).strobe {
                old(self).shift
            } else {
                (old(self).shift + 1) as u8
            },
    {
        if self.shift >= 8 {
            return 1;
        }
        let result = (self.data >> self.shift) & 1;
        if !self.strobe {
            self.shift += 1;
        }
        result
    }
}

/// A light-sensing gun: bit 3 is clear while light is sensed, bit 4 is set
/// while the trigger is pulled.
pub struct ZapperGun {
    pub trigger_pulled: bool,
    pub light_sense: bool,
}

impl ZapperGun {
    pub fn new() -> (r: ZapperGun)
        ensures
            !r.trigger_pulled,
            !r.light_sense,
    {
        ZapperGun { trigger_pulled: false, light_sense: false }
    }

    /// Strobe writes mean nothing to the gun.
    pub fn input(&mut self, value: u8)
        ensures
            *final(self) == *old(self),
    {
    }

    pub open spec fn output_spec(self) -> u8 {
        (if self.light_sense {
            0u8
        } else {
            8u8
        }) | (if self.trigger_pulled {
            16u8
        } else {
            0u8
        })
    }

    /// A port read: the light and trigger bits; reading changes nothing.
    pub fn output(&mut self) -> (r: u8)
        ensures
            r == old(self).output_spec(),
            *final(self) == *old(self),
    {
        let light_sensor: u8 = if self.light_sense {
            0
        } else {
            8
        };
        let trigger: u8 = if self.trigger_pulled {
            16
        } else {
            0
        };
        light_sensor | trigger
    }
}

/// What sits on a controller port.
pub enum InputType {
    Joypad(Joypad),
    Zapper(ZapperGun),
    Disconnected,
}

/// How one port-write changes a device.
pub open spec fn input_post(pre: InputType, post: InputType, value: u8) -> bool {
    match pre {
        InputType::Joypad(j) => post matches InputType::Joypad(jp) && jp.data == j.data
            && jp.strobe == ((value & 1) != 0) && jp.shift == if (value & 1) != 0 {
            0u8
        } else {
            j.shift
        },
        InputType::Zapper(z) => post == pre,
        InputType::Disconnected => post == pre,
    }
}

/// What one port-read returns.
pub open spec fn output_result(pre: InputType) -> u8 {
    match pre {
        InputType::Joypad(j) => j.output_bit_spec(),
        InputType::Zapper(z) => z.output_spec(),
        InputType::Disconnected => 0,
    }
}

/// How one port-read changes a device.
pub open spec fn output_post(pre: InputType, post: InputType) -> bool {
    match pre {
        InputType::Joypad(j) => post matches InputType::Joypad(jp) && jp.data == j.data
            && jp.strobe == j.strobe && jp.shift == if j.shift >= 8 || j.strobe {
            j.shift
        } else {
            (j.shift + 1) as u8
        },
        InputType::Zapper(z) => post == pre,
        InputType::Disconnected => post == pre,
    }
}

impl InputType {
    /// Forward a strobe write to whatever is on the port.
    pub fn input(&mut self, value: u8)
        ensures
            input_post(*old(self), *final(self), value),
    {
        match self {
            InputType::Joypad(joypad) => joypad.input(value),
            InputType::Zapper(zapper) => zapper.input(value),
            InputType::Disconnected => (),
        }
    }

    /// Read one bit from whatever is on the port; an empty port reads 0.
    pub fn output(&mut self) -> (r: u8)
        ensures
            r == output_result(*old(self)),
            output_post(*old(self), *final(self)),
    {
        match self {
            InputType::Joypad(joypad) => joypad.output(),
            InputType::Zapper(zapper) => zapper.output(),
            InputType::Disconnected => 0,
        }
    }
}

} // verus!

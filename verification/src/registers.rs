//! Register map of the LP55231: register addresses and the bit fields the
//! driver reads and writes.

use vstd::prelude::*;

verus! {

/// ENABLE / ENGINE CONTROL1
pub const CNTRL1: u8 = 0x00;
/// CNTRL1 field (bit 6): enables the chip
pub const CNTRL1_CHIP_EN: u8 = 0x40;

/// ENGINE CONTROL2: program-engine operation modes
pub const CNTRL2: u8 = 0x01;

/// OUTPUT DIRECT/RATIOMETRIC MSB
pub const RATIO_MSB: u8 = 0x02;
/// OUTPUT DIRECT/RATIOMETRIC LSB
pub const RATIO_LSB: u8 = 0x03;
/// OUTPUT ON/OFF CONTROL MSB
pub const OUTPUT_ONOFF_MSB: u8 = 0x04;
/// OUTPUT ON/OFF CONTROL LSB
pub const OUTPUT_ONOFF_LSB: u8 = 0x05;

/// Base address of the per-channel control registers: fader-group mapping,
/// logarithmic-dimming enable and temperature compensation. The register for
/// channel index `i` sits at `D_CTRL_BASE + i`.
pub const D_CTRL_BASE: u8 = 0x06;

/// Per-channel control field: no master fader assigned
pub const CTRL_MAPPING_NO_MASTER_FADER: u8 = 0x00;
/// Per-channel control field: MASTER FADER1 controls the output
pub const CTRL_MAPPING_MASTER_FADER_1: u8 = 0x40;
/// Per-channel control field: MASTER FADER2 controls the output
pub const CTRL_MAPPING_MASTER_FADER_2: u8 = 0x80;
/// Per-channel control field: MASTER FADER3 controls the output
pub const CTRL_MAPPING_MASTER_FADER_3: u8 = 0xc0;
/// Per-channel control field (bit 5): logarithmic brightness adjustment
pub const CTRL_LOG_EN: u8 = 0x20;

/// The temperature-compensation portion of a per-channel control byte: its
/// five low bits.
pub fn temp_comp(v: u8) -> (r: u8)
    ensures
        r == v & 0b11111,
{
    v & 0b11111
}

/// Per-channel control register for D1
pub const D1_CTRL: u8 = 0x06;
/// Per-channel control register for D2
pub const D2_CTRL: u8 = 0x07;
/// Per-channel control register for D3
pub const D3_CTRL: u8 = 0x08;
/// Per-channel control register for D4
pub const D4_CTRL: u8 = 0x09;
/// Per-channel control register for D5
pub const D5_CTRL: u8 = 0x0a;
/// Per-channel control register for D6
pub const D6_CTRL: u8 = 0x0b;
/// Per-channel control register for D7
pub const D7_CTRL: u8 = 0x0c;
/// Per-channel control register for D8
pub const D8_CTRL: u8 = 0x0d;
/// Per-channel control register for D9
pub const D9_CTRL: u8 = 0x0e;

/// Base address of the per-channel PWM duty-cycle registers. The register for
/// channel index `i` sits at `D_PWM_BASE + i`. The chip does not support bus
/// address auto-increment over this range (0x16 to 0x1E), so the driver issues
/// one discrete transaction per PWM write.
pub const D_PWM_BASE: u8 = 0x16;

/// Direct D1 PWM control register
pub const D1_PWM: u8 = 0x16;
/// Direct D2 PWM control register
pub const D2_PWM: u8 = 0x17;
/// Direct D3 PWM control register
pub const D3_PWM: u8 = 0x18;
/// Direct D4 PWM control register
pub const D4_PWM: u8 = 0x19;
/// Direct D5 PWM control register
pub const D5_PWM: u8 = 0x1a;
/// Direct D6 PWM control register
pub const D6_PWM: u8 = 0x1b;
/// Direct D7 PWM control register
pub const D7_PWM: u8 = 0x1c;
/// Direct D8 PWM control register
pub const D8_PWM: u8 = 0x1d;
/// Direct D9 PWM control register
pub const D9_PWM: u8 = 0x1e;

/// Drive current register for D1
pub const D1_I_CTL: u8 = 0x26;
/// Drive current register for D2
pub const D2_I_CTL: u8 = 0x27;
/// Drive current register for D3
pub const D3_I_CTL: u8 = 0x28;
/// Drive current register for D4
pub const D4_I_CTL: u8 = 0x29;
/// Drive current register for D5
pub const D5_I_CTL: u8 = 0x2a;
/// Drive current register for D6
pub const D6_I_CTL: u8 = 0x2b;
/// Drive current register for D7
pub const D7_I_CTL: u8 = 0x2c;
/// Drive current register for D8
pub const D8_I_CTL: u8 = 0x2d;
/// Drive current register for D9
pub const D9_I_CTL: u8 = 0x2e;

/// MISC: miscellaneous control bits
pub const MISC: u8 = 0x36;

/// MISC field: variable D source selection
pub const MISC_VARIABLE_D_SEL: u8 = 0x80;
/// MISC field: bus address auto-increment on successive register writes
pub const MISC_EN_AUTO_INCR: u8 = 0x40;
/// MISC field: power save mode
pub const MISC_POWERSAVE_EN: u8 = 0x20;
/// MISC field: charge pump forced to bypass mode (1x)
pub const MISC_CP_MODE_1X: u8 = 0x08;
/// MISC field: charge pump forced to 1.5x boost mode
pub const MISC_CP_MODE_1_5X: u8 = 0x10;
/// MISC field: charge pump automatic mode selection
pub const MISC_CP_MODE_AUTO: u8 = 0x18;
/// MISC field: PWM powersave operation
pub const MISC_PWM_PS_EN: u8 = 0x04;
/// MISC field: external clock detection
pub const MISC_CLK_DET_EN: u8 = 0x02;
/// MISC field: internal clock
pub const MISC_INT_CLK_EN: u8 = 0x01;

/// Program counter starting value for program execution engine 1
pub const PC1: u8 = 0x37;
/// Program counter starting value for program execution engine 2
pub const PC2: u8 = 0x38;
/// Program counter starting value for program execution engine 3
pub const PC3: u8 = 0x39;
/// STATUS/INTERRUPT
pub const STATUS_IRQ: u8 = 0x3A;
/// INT/GPO
pub const INT_GPIO: u8 = 0x3B;
/// Storage for a global 8-bit variable of the program engines
pub const GLOBAL_VAR: u8 = 0x3C;

/// RESET
pub const RESET: u8 = 0x3D;
/// RESET field: writing this value resets the chip to its power-on defaults
pub const RESET_NOW: u8 = 0xff;

/// TEMP ADC CONTROL
pub const TEMP_CTL: u8 = 0x3E;
/// Temperature reading from the internal sensor
pub const TEMP_READ: u8 = 0x3F;
/// Temperature reading supplied by an external sensor
pub const TEMP_WRITE: u8 = 0x40;
/// LED TEST CONTROL
pub const TEST_CTL: u8 = 0x41;
/// LED TEST ADC
pub const TEST_ADC: u8 = 0x42;

/// Engine 1 local variable (read-only)
pub const ENGINE_A_VAR: u8 = 0x45;
/// Engine 2 local variable (read-only)
pub const ENGINE_B_VAR: u8 = 0x46;
/// Engine 3 local variable (read-only)
pub const ENGINE_C_VAR: u8 = 0x47;

/// Dimming control for the LED drivers mapped to MASTER FADER1
pub const MASTER_FADE_1: u8 = 0x48;
/// Dimming control for the LED drivers mapped to MASTER FADER2
pub const MASTER_FADE_2: u8 = 0x49;
/// Dimming control for the LED drivers mapped to MASTER FADER3
pub const MASTER_FADE_3: u8 = 0x4A;

/// Engine 1 program start address
pub const PROG1_START: u8 = 0x4C;
/// Engine 2 program start address
pub const PROG2_START: u8 = 0x4D;
/// Engine 3 program start address
pub const PROG3_START: u8 = 0x4E;
/// Program memory page select
pub const PROG_PAGE_SEL: u8 = 0x4f;

/// Program memory page base: the page selected by PROG_PAGE_SEL
pub const PROG_MEM_BASE: u8 = 0x50;
/// Program memory page end
pub const PROG_MEM_END: u8 = 0x6f;

/// Engine 1-to-LED mapping information, high byte
pub const ENG1_MAP_MSB: u8 = 0x70;
/// Engine 1-to-LED mapping information, low byte
pub const ENG1_MAP_LSB: u8 = 0x71;
/// Engine 2-to-LED mapping information, high byte
pub const ENG2_MAP_MSB: u8 = 0x72;
/// Engine 2-to-LED mapping information, low byte
pub const ENG2_MAP_LSB: u8 = 0x73;
/// Engine 3-to-LED mapping information, high byte
pub const ENG3_MAP_MSB: u8 = 0x74;
/// Engine 3-to-LED mapping information, low byte
pub const ENG3_MAP_LSB: u8 = 0x75;

/// Charge-pump hysteresis and timer tuning
pub const GAIN_CHANGE: u8 = 0x76;

} // verus!

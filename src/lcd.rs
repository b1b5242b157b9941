use vstd::prelude::*;
use crate::utils::{Bits, bit8};
use vstd::arithmetic::div_mod::lemma_fundamental_div_mod_converse;

verus! {

pub const CONTROL_REGISTER: u16 = 0xFF40;
pub const STATUS_REGISTER: u16 = 0xFF41;
/// Background scroll position of the top-left corner of the view.
pub const SCROLL_Y_REGISTER: u16 = 0xFF42;
pub const SCROLL_X_REGISTER: u16 = 0xFF43;
/// Line being drawn.
pub const LY_REGISTER: u16 = 0xFF44;
pub const LYC_REGISTER: u16 = 0xFF45;
/// Palettes that map color ids to shades.
pub const BG_PALETTE: u16 = 0xFF47;
pub const OBJ_PALETTE_0: u16 = 0xFF48;
pub const OBJ_PALETTE_1: u16 = 0xFF49;
/// Window position: line, and column plus 7.
pub const WINDOW_Y_REGISTER: u16 = 0xFF4A;
pub const WINDOW_X_REGISTER: u16 = 0xFF4B;

/// CPU cycles per scanline.
pub const SCANLINE_CYCLES: u32 = 456;
/// Scanlines per frame, visible and VBlank.
pub const LINES_PER_FRAME: u8 = 154;
/// CPU cycles per frame.
pub const FRAME_CYCLES: u32 = 70224;

pub const VRAM_START: u16 = 0x8000;
pub const VRAM_END: u16 = 0x9FFF;
pub const VRAM_SIZE: usize = 0x2000;
/// Sprite attribute table.
pub const OAM_START: u16 = 0xFE00;
pub const OAM_END: u16 = 0xFE9F;
pub const OAM_SIZE: usize = 0xA0;

pub const SCREEN_WIDTH: usize = 160;
pub const SCREEN_HEIGHT: usize = 144;

/// Bit masks of the LCD interrupts in IF.
pub const V_BLANK_INTERRUPT_MASK: u8 = 0x01;
pub const STAT_INTERRUPT_MASK: u8 = 0x02;

/// The four shades of the screen.
#[derive(Clone, Copy, Debug, PartialEq, Eq, Structural)]
pub enum Color {
    White,
    DarkGrey,
    LightGrey,
    Black,
}

impl Color {
    pub fn rgb(&self) -> (r: (u8, u8, u8))
        ensures
            *self == Color::White ==> r == (255u8, 255u8, 255u8),
            *self == Color::LightGrey ==> r == (192u8, 192u8, 192u8),
            *self == Color::DarkGrey ==> r == (96u8, 96u8, 96u8),
            *self == Color::Black ==> r == (0u8, 0u8, 0u8),
    {
        match self {
            Color::White => (255, 255, 255),
            Color::LightGrey => (192, 192, 192),
            Color::DarkGrey => (96, 96, 96),
            Color::Black => (0, 0, 0),
        }
    }
}

/// The shade that `palette` gives to color id `id` (two bits per id).
pub open spec fn palette_color(id: u8, palette: u8) -> Color {
    let shade = if id % 4 == 0 {
        palette % 4
    } else if id % 4 == 1 {
        (palette / 4) % 4
    } else if id % 4 == 2 {
        (palette / 16) % 4
    } else {
        (palette / 64) % 4
    };
    if shade == 0 {
        Color::White
    } else if shade == 1 {
        Color::LightGrey
    } else if shade == 2 {
        Color::DarkGrey
    } else {
        Color::Black
    }
}

/// Whether `addr` is served by the LCD: VRAM, OAM or one of its registers.
pub open spec fn is_lcd_addr(addr: u16) -> bool {
    (VRAM_START <= addr <= VRAM_END) || (OAM_START <= addr <= OAM_END) || (CONTROL_REGISTER <= addr
        <= WINDOW_X_REGISTER && addr != 0xFF46)
}

/// Mode of the LCD at a point of the frame: 2 (OAM scan), 3 (drawing),
/// 0 (HBlank) within a visible line, 1 (VBlank) below it.
pub open spec fn mode_at(line: u8, cycles: u32) -> u8 {
    if line >= 144 {
        1
    } else if cycles < 80 {
        2
    } else if cycles < 252 {
        3
    } else {
        0
    }
}

/// STAT: interrupt sources, current mode, and the line being drawn.
pub struct LcdStatus {
    pub lyc_int_enable: bool,
    pub mode2_int_enable: bool,
    pub mode1_int_enable: bool,
    pub mode0_int_enable: bool,
    pub mode: u8,
    pub lyc: u8,
    pub curr_line: u8,
}

impl LcdStatus {
    pub fn new() -> (r: LcdStatus)
        ensures
            r == (LcdStatus {
                lyc: 0,
                curr_line: 0,
                lyc_int_enable: false,
                mode2_int_enable: false,
                mode1_int_enable: false,
                mode0_int_enable: false,
                mode: 0,
            }),
    {
        LcdStatus {
            lyc: 0,
            curr_line: 0,
            lyc_int_enable: false,
            mode2_int_enable: false,
            mode1_int_enable: false,
            mode0_int_enable: false,
            mode: 0,
        }
    }

    /// Takes the interrupt enables from bits 3-6 of a STAT write.
    pub fn update_modes(&mut self, status: u8)
        ensures
            *final(self) == (LcdStatus {
                lyc_int_enable: (status / 64) % 2 == 1,
                mode2_int_enable: (status / 32) % 2 == 1,
                mode1_int_enable: (status / 16) % 2 == 1,
                mode0_int_enable: (status / 8) % 2 == 1,
                ..*old(self)
            }),
    {
        self.lyc_int_enable = (status / 64) % 2 == 1;
        self.mode2_int_enable = (status / 32) % 2 == 1;
        self.mode1_int_enable = (status / 16) % 2 == 1;
        self.mode0_int_enable = (status / 8) % 2 == 1;
    }

    pub open spec fn spec_to_u8(&self) -> u8 {
        ((if self.lyc_int_enable { 64int } else { 0 }) + (if self.mode2_int_enable { 32int } else { 0 })
            + (if self.mode1_int_enable { 16int } else { 0 }) + (if self.mode0_int_enable { 8int } else { 0 })
            + (if self.lyc == self.curr_line { 4int } else { 0 }) + self.mode) as u8
    }

    /// STAT as read: enables in bits 3-6, LY == LYC in bit 2, mode in bits 0-1.
    pub fn to_u8(&self) -> (r: u8)
        requires
            self.mode < 4,
        ensures
            r == self.spec_to_u8(),
    {
        (if self.lyc_int_enable { 64u8 } else { 0 }) + (if self.mode2_int_enable { 32u8 } else { 0 }) + (
        if self.mode1_int_enable { 16u8 } else { 0 }) + (if self.mode0_int_enable { 8u8 } else { 0 }) + (
        if self.lyc == self.curr_line { 4u8 } else { 0 }) + self.mode
    }
}

/// LCDC decoded.
pub struct LcdControl {
    pub lcd_on: bool,
    pub window_tilemap: u16,
    pub window_enable: bool,
    pub bg_win_tile_data: u16,
    pub bg_tilemap: u16,
    pub obj_size: u32,
    pub obj_enable: bool,
    pub bg_win_enable: bool,
}

impl LcdControl {
    pub open spec fn spec_from_u8(value: u8) -> LcdControl {
        LcdControl {
            lcd_on: (value / 128) % 2 == 1,
            window_tilemap: if (value / 64) % 2 == 1 { 0x9C00 } else { 0x9800 },
            window_enable: (value / 32) % 2 == 1,
            bg_win_tile_data: if (value / 16) % 2 == 1 { 0x8000 } else { 0x8800 },
            bg_tilemap: if (value / 8) % 2 == 1 { 0x9C00 } else { 0x9800 },
            obj_size: if (value / 4) % 2 == 1 { 16 } else { 8 },
            obj_enable: (value / 2) % 2 == 1,
            bg_win_enable: value % 2 == 1,
        }
    }

    pub open spec fn spec_to_u8(&self) -> u8 {
        ((if self.lcd_on { 128int } else { 0 }) + (if self.window_tilemap == 0x9C00 { 64int } else { 0 })
            + (if self.window_enable { 32int } else { 0 }) + (if self.bg_win_tile_data == 0x8000 { 16int } else { 0 })
            + (if self.bg_tilemap == 0x9C00 { 8int } else { 0 }) + (if self.obj_size == 16 { 4int } else { 0 })
            + (if self.obj_enable { 2int } else { 0 }) + (if self.bg_win_enable { 1int } else { 0 })) as u8
    }

    /// Every field of a decoded LCDC takes one of the values LCDC can name.
    pub open spec fn wf(&self) -> bool {
        &&& (self.window_tilemap == 0x9C00 || self.window_tilemap == 0x9800)
        &&& (self.bg_win_tile_data == 0x8000 || self.bg_win_tile_data == 0x8800)
        &&& (self.bg_tilemap == 0x9C00 || self.bg_tilemap == 0x9800)
        &&& (self.obj_size == 16 || self.obj_size == 8)
    }

    pub fn from_u8(value: u8) -> (r: LcdControl)
        ensures
            r == LcdControl::spec_from_u8(value),
            r.wf(),
            r.spec_to_u8() == value,
    {
        assert(value == (value / 128) % 2 * 128 + (value / 64) % 2 * 64 + (value / 32) % 2 * 32 + (value
            / 16) % 2 * 16 + (value / 8) % 2 * 8 + (value / 4) % 2 * 4 + (value / 2) % 2 * 2 + value % 2)
            by (bit_vector);
        LcdControl {
            lcd_on: (value / 128) % 2 == 1,
            window_tilemap: if (value / 64) % 2 == 1 { 0x9C00 } else { 0x9800 },
            window_enable: (value / 32) % 2 == 1,
            bg_win_tile_data: if (value / 16) % 2 == 1 { 0x8000 } else { 0x8800 },
            bg_tilemap: if (value / 8) % 2 == 1 { 0x9C00 } else { 0x9800 },
            obj_size: if (value / 4) % 2 == 1 { 16 } else { 8 },
            obj_enable: (value / 2) % 2 == 1,
            bg_win_enable: value % 2 == 1,
        }
    }

    /// LCDC as read back.
    pub fn to_u8(&self) -> (r: u8)
        ensures
            r == self.spec_to_u8(),
    {
        (if self.lcd_on { 128u8 } else { 0 }) + (if self.window_tilemap == 0x9C00 { 64u8 } else { 0 }) + (
        if self.window_enable { 32u8 } else { 0 }) + (if self.bg_win_tile_data == 0x8000 { 16u8 } else { 0 })
            + (if self.bg_tilemap == 0x9C00 { 8u8 } else { 0 }) + (if self.obj_size == 16 { 4u8 } else { 0 }) + (
        if self.obj_enable { 2u8 } else { 0 }) + (if self.bg_win_enable { 1u8 } else { 0 })
    }
}

/// The LCD controller (PPU).
pub struct Lcd {
    pub lcd_control: LcdControl,
    pub lcd_status: LcdStatus,
    pub scanlines_cycles: u32,
    pub scroll_y: u8,
    pub scroll_x: u8,
    pub window_x: u8,
    pub window_y: u8,
    pub bg_palette: u8,
    pub obj0_palette: u8,
    pub obj1_palette: u8,
    pub vram: [u8; VRAM_SIZE],
    pub oam: [u8; OAM_SIZE],
    pub screen_data: [[Color; SCREEN_HEIGHT]; SCREEN_WIDTH],
    /// Interrupt bits raised since the bus last drained them.
    pub int_request: u8,
}

/// Position in the frame of a line and a cycle within it.
pub open spec fn frame_position(line: u8, cycles: u32) -> int {
    line as int * 456 + cycles as int
}

/// Whether a run of `n` cycles from frame position `p` enters line 144.
pub open spec fn enters_vblank(p: int, n: nat) -> bool
    decreases n,
{
    if n == 0 {
        false
    } else {
        enters_vblank(p, (n - 1) as nat) || (p + n) % (FRAME_CYCLES as int) == 144 * 456
    }
}

impl Lcd {
    /// Field ranges: LCDC decoded, LY a line of the frame, the cycle a
    /// cycle of the line, a mode.
    pub open spec fn wf_parts(&self) -> bool {
        &&& self.lcd_control.wf()
        &&& self.lcd_status.curr_line < 154
        &&& self.scanlines_cycles < 456
        &&& self.lcd_status.mode < 4
    }

    /// Field ranges, and VBlank mode below the visible lines.
    pub open spec fn wf(&self) -> bool {
        &&& self.wf_parts()
        &&& (self.lcd_status.curr_line >= 144 ==> self.lcd_status.mode == 1)
    }

    /// Current line (LY).
    pub open spec fn ly(&self) -> u8 {
        self.lcd_status.curr_line
    }

    /// Position in the frame.
    pub open spec fn position(&self) -> int {
        frame_position(self.lcd_status.curr_line, self.scanlines_cycles)
    }

    /// The byte a read of `addr` returns.
    pub open spec fn read_spec(&self, addr: u16) -> u8 {
        if VRAM_START <= addr <= VRAM_END {
            self.vram@[addr - VRAM_START]
        } else if OAM_START <= addr <= OAM_END {
            self.oam@[addr - OAM_START]
        } else if addr == CONTROL_REGISTER {
            self.lcd_control.spec_to_u8()
        } else if addr == STATUS_REGISTER {
            self.lcd_status.spec_to_u8()
        } else if addr == SCROLL_Y_REGISTER {
            self.scroll_y
        } else if addr == SCROLL_X_REGISTER {
            self.scroll_x
        } else if addr == LY_REGISTER {
            self.lcd_status.curr_line
        } else if addr == LYC_REGISTER {
            self.lcd_status.lyc
        } else if addr == BG_PALETTE {
            self.bg_palette
        } else if addr == OBJ_PALETTE_0 {
            self.obj0_palette
        } else if addr == OBJ_PALETTE_1 {
            self.obj1_palette
        } else if addr == WINDOW_Y_REGISTER {
            self.window_y
        } else {
            self.window_x
        }
    }

    /// A screen of white pixels.
    pub open spec fn screen_is_white(&self) -> bool {
        forall|x: int, y: int| 0 <= x < 160 && 0 <= y < 144 ==> #[trigger] self.screen_data@[x]@[y] == Color::White
    }

    /// `after` is the LCD once `value` has been written to `addr`.
    pub open spec fn write_post(&self, addr: u16, value: u8, after: Lcd) -> bool {
        if VRAM_START <= addr <= VRAM_END {
            after == (Lcd { vram: after.vram, ..*self }) && after.vram@ == self.vram@.update(addr - VRAM_START, value)
        } else if OAM_START <= addr <= OAM_END {
            after == (Lcd { oam: after.oam, ..*self }) && after.oam@ == self.oam@.update(addr - OAM_START, value)
        } else if addr == CONTROL_REGISTER {
            let control = LcdControl::spec_from_u8(value);
            if control.lcd_on {
                after == (Lcd { lcd_control: control, ..*self })
            } else {
                &&& after == (Lcd {
                    lcd_control: control,
                    scanlines_cycles: 0,
                    lcd_status: LcdStatus { curr_line: 0, mode: 0, ..self.lcd_status },
                    screen_data: after.screen_data,
                    ..*self
                })
                &&& after.screen_is_white()
            }
        } else if addr == STATUS_REGISTER {
            after == (Lcd {
                lcd_status: LcdStatus {
                    lyc_int_enable: (value / 64) % 2 == 1,
                    mode2_int_enable: (value / 32) % 2 == 1,
                    mode1_int_enable: (value / 16) % 2 == 1,
                    mode0_int_enable: (value / 8) % 2 == 1,
                    ..self.lcd_status
                },
                ..*self
            })
        } else if addr == SCROLL_Y_REGISTER {
            after == (Lcd { scroll_y: value, ..*self })
        } else if addr == SCROLL_X_REGISTER {
            after == (Lcd { scroll_x: value, ..*self })
        } else if addr == LY_REGISTER {
            after == (Lcd { lcd_status: LcdStatus { curr_line: 0, ..self.lcd_status }, ..*self })
        } else if addr == LYC_REGISTER {
            after == (Lcd { lcd_status: LcdStatus { lyc: value, ..self.lcd_status }, ..*self })
        } else if addr == BG_PALETTE {
            after == (Lcd { bg_palette: value, ..*self })
        } else if addr == OBJ_PALETTE_0 {
            after == (Lcd { obj0_palette: value, ..*self })
        } else if addr == OBJ_PALETTE_1 {
            after == (Lcd { obj1_palette: value, ..*self })
        } else if addr == WINDOW_Y_REGISTER {
            after == (Lcd { window_y: value, ..*self })
        } else {
            after == (Lcd { window_x: value, ..*self })
        }
    }

    /// State at power-on.
    pub open spec fn is_power_on(&self) -> bool {
        &&& self.lcd_control == LcdControl::spec_from_u8(0x58)
        &&& self.lcd_status == (LcdStatus {
            lyc: 0,
            curr_line: 0,
            lyc_int_enable: false,
            mode2_int_enable: false,
            mode1_int_enable: false,
            mode0_int_enable: false,
            mode: 0,
        })
        &&& self.scanlines_cycles == 0
        &&& self.scroll_y == 0 && self.scroll_x == 0 && self.window_x == 0 && self.window_y == 0
        &&& self.bg_palette == 0 && self.obj0_palette == 0 && self.obj1_palette == 1
        &&& forall|i: int| 0 <= i < VRAM_SIZE ==> self.vram@[i] == 0
        &&& forall|i: int| 0 <= i < OAM_SIZE ==> self.oam@[i] == 0
        &&& self.screen_is_white()
        &&& self.int_request == 0
    }

    pub fn new() -> (r: Lcd)
        ensures
            r.is_power_on(),
            r.wf(),
    {
        let r = Lcd {
            lcd_control: LcdControl::from_u8(0x58),
            lcd_status: LcdStatus::new(),
            scanlines_cycles: 0,
            scroll_y: 0,
            scroll_x: 0,
            window_x: 0,
            window_y: 0,
            bg_palette: 0,
            obj0_palette: 0,
            obj1_palette: 1,
            vram: [0; VRAM_SIZE],
            oam: [0; OAM_SIZE],
            screen_data: [[Color::White; SCREEN_HEIGHT]; SCREEN_WIDTH],
            int_request: 0,
        };
        r
    }

    fn turn_off_lcd(&mut self)
        ensures
            *final(self) == (Lcd {
                scanlines_cycles: 0,
                lcd_status: LcdStatus { curr_line: 0, mode: 0, ..old(self).lcd_status },
                screen_data: final(self).screen_data,
                ..*old(self)
            }),
            final(self).screen_is_white(),
    {
        self.clear_screen();
        self.scanlines_cycles = 0;
        self.lcd_status.curr_line = 0;
        self.lcd_status.mode = 0;
    }

    fn clear_screen(&mut self)
        ensures
            *final(self) == (Lcd { screen_data: final(self).screen_data, ..*old(self) }),
            final(self).screen_is_white(),
    {
        self.screen_data = [[Color::White; SCREEN_HEIGHT]; SCREEN_WIDTH];
    }

    pub fn readb(&self, addr: u16) -> (r: u8)
        requires
            self.wf(),
            is_lcd_addr(addr),
        ensures
            r == self.read_spec(addr),
    {
        if VRAM_START <= addr && addr <= VRAM_END {
            self.vram[(addr - VRAM_START) as usize]
        } else if OAM_START <= addr && addr <= OAM_END {
            self.oam[(addr - OAM_START) as usize]
        } else if addr == CONTROL_REGISTER {
            self.lcd_control.to_u8()
        } else if addr == STATUS_REGISTER {
            self.lcd_status.to_u8()
        } else if addr == SCROLL_Y_REGISTER {
            self.scroll_y
        } else if addr == SCROLL_X_REGISTER {
            self.scroll_x
        } else if addr == LY_REGISTER {
            self.lcd_status.curr_line
        } else if addr == LYC_REGISTER {
            self.lcd_status.lyc
        } else if addr == BG_PALETTE {
            self.bg_palette
        } else if addr == OBJ_PALETTE_0 {
            self.obj0_palette
        } else if addr == OBJ_PALETTE_1 {
            self.obj1_palette
        } else if addr == WINDOW_Y_REGISTER {
            self.window_y
        } else {
            self.window_x
        }
    }

    /// Writes VRAM, OAM or a register. Turning the LCD off clears the screen
    /// and restarts the frame; a write to LY resets it to 0.
    pub fn writeb(&mut self, addr: u16, value: u8)
        requires
            old(self).wf(),
            is_lcd_addr(addr),
        ensures
            final(self).wf(),
            old(self).write_post(addr, value, *final(self)),
    {
        if VRAM_START <= addr && addr <= VRAM_END {
            self.vram[(addr - VRAM_START) as usize] = value;
        } else if OAM_START <= addr && addr <= OAM_END {
            self.oam[(addr - OAM_START) as usize] = value;
        } else if addr == CONTROL_REGISTER {
            self.lcd_control = LcdControl::from_u8(value);
            if !self.lcd_control.lcd_on {
                self.turn_off_lcd();
            }
        } else if addr == STATUS_REGISTER {
            self.lcd_status.update_modes(value);
        } else if addr == SCROLL_Y_REGISTER {
            self.scroll_y = value;
        } else if addr == SCROLL_X_REGISTER {
            self.scroll_x = value;
        } else if addr == LY_REGISTER {
            self.lcd_status.curr_line = 0;
        } else if addr == LYC_REGISTER {
            self.lcd_status.lyc = value;
        } else if addr == BG_PALETTE {
            self.bg_palette = value;
        } else if addr == OBJ_PALETTE_0 {
            self.obj0_palette = value;
        } else if addr == OBJ_PALETTE_1 {
            self.obj1_palette = value;
        } else if addr == WINDOW_Y_REGISTER {
            self.window_y = value;
        } else {
            self.window_x = value;
        }
    }
}


/// Color id (0-3) of pixel `bit` of a tile row stored as a low and a high byte.
pub open spec fn color_id(lo: u8, hi: u8, bit: u8) -> u8 {
    ((if bit8(hi, bit) { 2int } else { 0 }) + (if bit8(lo, bit) { 1int } else { 0 })) as u8
}

/// Interrupt bits raised on entry into `mode`.
pub open spec fn mode_irq(status: LcdStatus, mode: u8) -> u8 {
    if mode == 0 {
        if status.mode0_int_enable { 2 } else { 0 }
    } else if mode == 1 {
        if status.mode1_int_enable { 3 } else { 1 }
    } else if mode == 2 {
        if status.mode2_int_enable { 2 } else { 0 }
    } else {
        0
    }
}

proof fn lemma_irq_bits()
    ensures
        forall|x: u8| #[trigger] (x | 0) == x,
        forall|x: u8| bit8(#[trigger] (x | 2), 0) == bit8(x, 0),
        forall|x: u8| bit8(#[trigger] (x | 1), 0),
        forall|x: u8| bit8(#[trigger] (x | 3), 0),
        forall|x: u8, i: u8| 2 <= i < 8 ==> #[trigger] bit8(x | 1, i) == bit8(x, i),
        forall|x: u8, i: u8| 2 <= i < 8 ==> #[trigger] bit8(x | 2, i) == bit8(x, i),
        forall|x: u8, i: u8| 2 <= i < 8 ==> #[trigger] bit8(x | 3, i) == bit8(x, i),
{
    assert(forall|x: u8| #[trigger] (x | 0) == x) by (bit_vector);
    assert(forall|x: u8| (((x | 2) >> 0u8) & 1 == 1) == ((x >> 0u8) & 1 == 1)) by (bit_vector);
    assert(forall|x: u8| ((x | 1) >> 0u8) & 1 == 1) by (bit_vector);
    assert(forall|x: u8| ((x | 3) >> 0u8) & 1 == 1) by (bit_vector);
    assert(forall|x: u8, i: u8| 2 <= i < 8 ==> ((((x | 1) >> i) & 1 == 1) == ((x >> i) & 1 == 1)))
        by (bit_vector);
    assert(forall|x: u8, i: u8| 2 <= i < 8 ==> ((((x | 2) >> i) & 1 == 1) == ((x >> i) & 1 == 1)))
        by (bit_vector);
    assert(forall|x: u8, i: u8| 2 <= i < 8 ==> ((((x | 3) >> i) & 1 == 1) == ((x >> i) & 1 == 1)))
        by (bit_vector);
}

impl Lcd {
    /// VRAM byte at bus address `addr`.
    pub open spec fn vram_at(&self, addr: int) -> u8 {
        self.vram@[addr - 0x8000]
    }

    /// Whether column `x` of the current line shows the window.
    pub open spec fn in_window(&self, x: int) -> bool {
        self.lcd_control.window_enable && self.ly() >= self.window_y && x + 7 >= self.window_x
    }

    /// Row in the background or window map that column `x` of the current line shows.
    pub open spec fn source_y(&self, x: int) -> int {
        if self.in_window(x) {
            self.ly() - self.window_y
        } else {
            (self.scroll_y + self.ly()) % 256
        }
    }

    /// Column in the background or window map that column `x` of the current line shows.
    pub open spec fn source_x(&self, x: int) -> int {
        if self.in_window(x) {
            x + 7 - self.window_x
        } else {
            (self.scroll_x + x) % 256
        }
    }

    /// Address of the first byte of background tile `index`: unsigned from
    /// 0x8000, or signed around 0x9000.
    pub open spec fn tile_data_addr(&self, index: u8) -> int {
        if self.lcd_control.bg_win_tile_data == 0x8000 {
            0x8000 + index * 16
        } else if index < 128 {
            0x9000 + index * 16
        } else {
            0x9000 + (index - 256) * 16
        }
    }

    /// Color id of column `x` of the current line in the background or window.
    pub open spec fn bg_color_id(&self, x: int) -> u8 {
        let sy = self.source_y(x);
        let sx = self.source_x(x);
        let map = if self.in_window(x) { self.lcd_control.window_tilemap } else { self.lcd_control.bg_tilemap };
        let index = self.vram_at(map + (sy / 8) * 32 + sx / 8);
        let addr = self.tile_data_addr(index) + (sy % 8) * 2;
        color_id(self.vram_at(addr), self.vram_at(addr + 1), (7 - sx % 8) as u8)
    }

    /// Shade of column `x` of the current line in the background or window.
    pub open spec fn bg_pixel(&self, x: int) -> Color {
        palette_color(self.bg_color_id(x), self.bg_palette)
    }

    /// Shade that sprite `e` (an OAM entry) gives column `x` of the current
    /// line, drawn over `under` where the background shows `bg`: unchanged
    /// where the sprite is absent or transparent, or where it has background
    /// priority (attribute bit 7) and `bg` is not white.
    pub open spec fn sprite_pixel(&self, e: int, x: int, under: Color, bg: Color) -> Color {
        let base = 4 * e;
        let y = self.oam@[base] - 16;
        let sx = self.oam@[base + 1] - 8;
        let h = self.lcd_control.obj_size as int;
        let tile: int = if h == 16 { self.oam@[base + 2] / 2 * 2 } else { self.oam@[base + 2] as int };
        let attrs = self.oam@[base + 3];
        let line = self.ly() as int;
        if !(y <= line < y + h) || !(sx <= x < sx + 8) {
            under
        } else {
            let row = if bit8(attrs, 6) { y + h - line - 1 } else { line - y };
            let addr = 0x8000 + tile * 16 + row * 2;
            let tp = x - sx;
            let bit = if bit8(attrs, 5) { tp } else { 7 - tp };
            let id = color_id(self.vram_at(addr), self.vram_at(addr + 1), bit as u8);
            if id == 0 || (bit8(attrs, 7) && bg != Color::White) {
                under
            } else {
                palette_color(id, if bit8(attrs, 4) { self.obj1_palette } else { self.obj0_palette })
            }
        }
    }

    /// Column `x` of the current line after the first `n` sprites are drawn
    /// over `under`, with background `bg`; sprites go from OAM entry 39 down
    /// to entry 0.
    pub open spec fn sprites_over(&self, x: int, n: nat, under: Color, bg: Color) -> Color
        decreases n,
    {
        if n == 0 {
            under
        } else {
            self.sprite_pixel(39 - (n - 1), x, self.sprites_over(x, (n - 1) as nat, under, bg), bg)
        }
    }

    /// Everything but the screen and the pending interrupt bits.
    pub open spec fn same_but_screen(&self, other: Lcd) -> bool {
        *self == (Lcd { screen_data: self.screen_data, int_request: self.int_request, ..other })
    }

    /// `screen` is the screen of `self` with the current line drawn as
    /// `draw_scanline` draws it: background or window if enabled, then
    /// sprites if enabled.
    pub open spec fn line_drawn(&self, screen: [[Color; SCREEN_HEIGHT]; SCREEN_WIDTH]) -> bool {
        let ly = self.ly() as int;
        &&& forall|x: int, y: int|
            0 <= x < 160 && 0 <= y < 144 && y != ly ==> #[trigger] screen@[x]@[y] == self.screen_data@[x]@[y]
        &&& forall|x: int|
            0 <= x < 160 ==> #[trigger] screen@[x]@[ly] == {
                let base = if self.lcd_control.bg_win_enable {
                    self.bg_pixel(x)
                } else {
                    self.screen_data@[x]@[ly]
                };
                if self.lcd_control.obj_enable {
                    self.sprites_over(x, 40, base, base)
                } else {
                    base
                }
            }
    }
}

proof fn lemma_sprites_same(a: Lcd, b: Lcd, x: int, n: nat, under: Color, bg: Color)
    requires
        a.same_but_screen(b),
    ensures
        a.sprites_over(x, n, under, bg) == b.sprites_over(x, n, under, bg),
    decreases n,
{
    if n > 0 {
        lemma_sprites_same(a, b, x, (n - 1) as nat, under, bg);
    }
}

impl Lcd {
    fn get_color(&self, palette_id: u8, palette: u8) -> (r: Color)
        ensures
            r == palette_color(palette_id, palette),
    {
        let id = palette_id % 4;
        let shade = if id == 0 {
            palette % 4
        } else if id == 1 {
            (palette / 4) % 4
        } else if id == 2 {
            (palette / 16) % 4
        } else {
            (palette / 64) % 4
        };
        if shade == 0 {
            Color::White
        } else if shade == 1 {
            Color::LightGrey
        } else if shade == 2 {
            Color::DarkGrey
        } else {
            Color::Black
        }
    }
}


impl Lcd {
    /// Shade of column `x` of the current line in the background or window.
    fn bg_pixel_at(&self, x: usize) -> (r: Color)
        requires
            self.wf_parts(),
            self.ly() < 144,
            x < 160,
        ensures
            r == self.bg_pixel(x as int),
    {
        let ly = self.lcd_status.curr_line;
        let draw_window = self.lcd_control.window_enable && ly >= self.window_y && x + 7 >= self.window_x as usize;
        let sy: usize = if draw_window {
            (ly - self.window_y) as usize
        } else {
            (self.scroll_y as usize + ly as usize) % 256
        };
        let sx: usize = if draw_window {
            x + 7 - self.window_x as usize
        } else {
            (self.scroll_x as usize + x) % 256
        };
        let map: usize = if draw_window {
            self.lcd_control.window_tilemap as usize
        } else {
            self.lcd_control.bg_tilemap as usize
        };
        let index = self.vram[map - 0x8000 + (sy / 8) * 32 + sx / 8];
        let tile: usize = if self.lcd_control.bg_win_tile_data == 0x8000 {
            0x8000 + index as usize * 16
        } else if index < 128 {
            0x9000 + index as usize * 16
        } else {
            0x9000 + index as usize * 16 - 0x1000
        };
        // Each row of 8 pixels takes two bytes.
        let addr = tile + (sy % 8) * 2;
        let lo = self.vram[addr - 0x8000];
        let hi = self.vram[addr + 1 - 0x8000];
        let bit = (7 - sx % 8) as u8;
        let id = hi.get_bit(bit) * 2 + lo.get_bit(bit);
        self.get_color(id, self.bg_palette)
    }

    fn draw_tiles(&mut self)
        requires
            old(self).wf_parts(),
            old(self).ly() < 144,
        ensures
            *final(self) == (Lcd { screen_data: final(self).screen_data, ..*old(self) }),
            forall|x: int, y: int|
                0 <= x < 160 && 0 <= y < 144 && y != old(self).ly() ==> #[trigger] final(self).screen_data@[x]@[y]
                    == old(self).screen_data@[x]@[y],
            forall|x: int| 0 <= x < 160 ==> #[trigger] final(self).screen_data@[x]@[old(self).ly() as int] == old(self).bg_pixel(x),
    {
        let ghost pre = *self;
        let ly = self.lcd_status.curr_line;
        let mut x: usize = 0;
        while x < SCREEN_WIDTH
            invariant
                pre.wf_parts(),
                ly == pre.ly(),
                ly < 144,
                x <= 160,
                *self == (Lcd { screen_data: self.screen_data, ..pre }),
                forall|c: int, y: int|
                    0 <= c < 160 && 0 <= y < 144 && y != ly ==> #[trigger] self.screen_data@[c]@[y]
                        == pre.screen_data@[c]@[y],
                forall|c: int| 0 <= c < x ==> #[trigger] self.screen_data@[c]@[ly as int] == pre.bg_pixel(c),
            decreases 160 - x,
        {
            let color = self.bg_pixel_at(x);
            self.screen_data[x][ly as usize] = color;
            x += 1;
        }
    }

    fn draw_sprites(&mut self)
        requires
            old(self).wf_parts(),
            old(self).ly() < 144,
        ensures
            *final(self) == (Lcd { screen_data: final(self).screen_data, ..*old(self) }),
            forall|x: int, y: int|
                0 <= x < 160 && 0 <= y < 144 && y != old(self).ly() ==> #[trigger] final(self).screen_data@[x]@[y]
                    == old(self).screen_data@[x]@[y],
            forall|x: int|
                0 <= x < 160 ==> #[trigger] final(self).screen_data@[x]@[old(self).ly() as int] == old(self).sprites_over(
                    x,
                    40,
                    old(self).screen_data@[x]@[old(self).ly() as int],
                    old(self).screen_data@[x]@[old(self).ly() as int],
                ),
    {
        let ghost pre = *self;
        let ly = self.lcd_status.curr_line;
        let h: u32 = self.lcd_control.obj_size;
        // Background priority is decided against the line as it was before
        // any sprite was drawn.
        let background = self.screen_data;
        let mut sprite: usize = 0;
        while sprite < 40
            invariant
                background == pre.screen_data,
                pre.wf_parts(),
                ly == pre.ly(),
                ly < 144,
                h == pre.lcd_control.obj_size,
                sprite <= 40,
                *self == (Lcd { screen_data: self.screen_data, ..pre }),
                forall|c: int, y: int|
                    0 <= c < 160 && 0 <= y < 144 && y != ly ==> #[trigger] self.screen_data@[c]@[y]
                        == pre.screen_data@[c]@[y],
                forall|c: int|
                    0 <= c < 160 ==> #[trigger] self.screen_data@[c]@[ly as int] == pre.sprites_over(
                        c,
                        sprite as nat,
                        pre.screen_data@[c]@[ly as int],
                        pre.screen_data@[c]@[ly as int],
                    ),
            decreases 40 - sprite,
        {
            // Each OAM entry is 4 bytes: y, x, tile, attributes.
            let base = (39 - sprite) * 4;
            let y_pos: i32 = self.oam[base] as i32 - 16;
            let line: i32 = ly as i32;
            if y_pos <= line && line < y_pos + h as i32 {
                let x_pos: i32 = self.oam[base + 1] as i32 - 8;
                let raw_tile = self.oam[base + 2];
                let tile: usize = if h == 16 { (raw_tile / 2 * 2) as usize } else { raw_tile as usize };
                let attrs = self.oam[base + 3];
                let row: usize = if attrs.is_set(6) {
                    (y_pos + h as i32 - line - 1) as usize
                } else {
                    (line - y_pos) as usize
                };
                let addr = tile * 16 + row * 2;
                let lo = self.vram[addr];
                let hi = self.vram[addr + 1];
                let ghost e = 39 - sprite as int;
                let mut tp: i32 = 0;
                while tp < 8
                    invariant
                        background == pre.screen_data,
                        pre.wf_parts(),
                        ly == pre.ly(),
                        ly < 144,
                        sprite < 40,
                        0 <= tp <= 8,
                        e == 39 - sprite as int,
                        base == 4 * e,
                        x_pos == pre.oam@[base + 1] - 8,
                        y_pos == pre.oam@[base as int] - 16,
                        y_pos <= line < y_pos + h,
                        line == ly,
                        h == pre.lcd_control.obj_size,
                        attrs == pre.oam@[base + 3],
                        tile == (if h == 16 { pre.oam@[base + 2] / 2 * 2 } else { pre.oam@[base + 2] as int }),
                        row == (if bit8(attrs, 6) { y_pos + h - line - 1 } else { line - y_pos }),
                        lo == pre.vram_at(0x8000 + tile * 16 + row * 2),
                        hi == pre.vram_at(0x8000 + tile * 16 + row * 2 + 1),
                        *self == (Lcd { screen_data: self.screen_data, ..pre }),
                        forall|c: int, y: int|
                            0 <= c < 160 && 0 <= y < 144 && y != ly ==> #[trigger] self.screen_data@[c]@[y]
                                == pre.screen_data@[c]@[y],
                        forall|c: int|
                            0 <= c < 160 ==> #[trigger] self.screen_data@[c]@[ly as int] == {
                                let bg = pre.screen_data@[c]@[ly as int];
                                let under = pre.sprites_over(c, sprite as nat, bg, bg);
                                if x_pos <= c < x_pos + tp {
                                    pre.sprite_pixel(e, c, under, bg)
                                } else {
                                    under
                                }
                            },
                    decreases 8 - tp,
                {
                    let x = x_pos + tp;
                    if 0 <= x && x < 160 {
                        // Tiles store their leftmost pixel in bit 7.
                        let bit: u8 = if attrs.is_set(5) { tp as u8 } else { (7 - tp) as u8 };
                        let id = hi.get_bit(bit) * 2 + lo.get_bit(bit);
                        let bg = background[x as usize][ly as usize];
                        if id != 0 && !(attrs.is_set(7) && bg != Color::White) {
                            let palette = if attrs.is_set(4) { self.obj1_palette } else { self.obj0_palette };
                            let color = self.get_color(id, palette);
                            self.screen_data[x as usize][ly as usize] = color;
                        }
                    }
                    tp += 1;
                }
            }
            sprite += 1;
        }
    }

    fn draw_scanline(&mut self)
        requires
            old(self).wf_parts(),
            old(self).ly() < 144,
        ensures
            *final(self) == (Lcd { screen_data: final(self).screen_data, ..*old(self) }),
            old(self).line_drawn(final(self).screen_data),
    {
        let ghost pre = *self;
        if self.lcd_control.bg_win_enable {
            self.draw_tiles();
        }
        let ghost mid = *self;
        if self.lcd_control.obj_enable {
            self.draw_sprites();
            proof {
                assert forall|x: int| 0 <= x < 160 implies #[trigger] mid.sprites_over(
                    x,
                    40,
                    mid.screen_data@[x]@[pre.ly() as int],
                    mid.screen_data@[x]@[pre.ly() as int],
                ) == pre.sprites_over(
                    x,
                    40,
                    mid.screen_data@[x]@[pre.ly() as int],
                    mid.screen_data@[x]@[pre.ly() as int],
                ) by {
                    let b = mid.screen_data@[x]@[pre.ly() as int];
                    lemma_sprites_same(mid, pre, x, 40, b, b);
                }
            }
        }
    }
}


impl Lcd {
    /// Enters `mode`: HBlank draws the current line; each entry raises the
    /// interrupts that STAT enables for it, and VBlank its own.
    fn set_mode(&mut self, mode: u8)
        requires
            old(self).wf_parts(),
            mode < 4,
            mode == 0 ==> old(self).ly() < 144,
            old(self).ly() >= 144 ==> mode == 1,
        ensures
            final(self).lcd_status == (LcdStatus { mode, ..old(self).lcd_status }),
            final(self).int_request == old(self).int_request | mode_irq(old(self).lcd_status, mode),
            *final(self) == (Lcd {
                screen_data: final(self).screen_data,
                int_request: final(self).int_request,
                lcd_status: final(self).lcd_status,
                ..*old(self)
            }),
            final(self).wf(),
            mode == 0 ==> old(self).line_drawn(final(self).screen_data),
            mode != 0 ==> final(self).screen_data == old(self).screen_data,
    {
        let mask: u8 = if mode == 0 {
            if self.lcd_status.mode0_int_enable { STAT_INTERRUPT_MASK } else { 0 }
        } else if mode == 1 {
            if self.lcd_status.mode1_int_enable { 0x03 } else { V_BLANK_INTERRUPT_MASK }
        } else if mode == 2 {
            if self.lcd_status.mode2_int_enable { STAT_INTERRUPT_MASK } else { 0 }
        } else {
            0
        };
        if mode == 0 {
            self.draw_scanline();
        }
        self.lcd_status.mode = mode;
        self.int_request = self.int_request | mask;
    }

    /// One cycle of the LCD.
    fn tick(&mut self)
        requires
            old(self).wf(),
            old(self).lcd_control.lcd_on,
        ensures
            final(self).wf(),
            *final(self) == (Lcd {
                screen_data: final(self).screen_data,
                int_request: final(self).int_request,
                scanlines_cycles: final(self).scanlines_cycles,
                lcd_status: LcdStatus { curr_line: final(self).lcd_status.curr_line, mode: final(self).lcd_status.mode, ..old(self).lcd_status },
                ..*old(self)
            }),
            final(self).position() == (old(self).position() + 1) % 70224,
            final(self).lcd_status.mode == mode_at(final(self).ly(), final(self).scanlines_cycles),
            bit8(final(self).int_request, 0) == (bit8(old(self).int_request, 0) || final(self).position() == 144 * 456),
            forall|i: u8| 2 <= i < 8 ==> #[trigger] bit8(final(self).int_request, i) == bit8(old(self).int_request, i),
            old(self).tick_post(*final(self)),
    {
        proof {
            lemma_irq_bits();
        }
        self.scanlines_cycles = self.scanlines_cycles + 1;
        if self.scanlines_cycles >= SCANLINE_CYCLES {
            // The line is over.
            self.scanlines_cycles = 0;
            self.lcd_status.curr_line = (self.lcd_status.curr_line + 1) % LINES_PER_FRAME;
            if self.lcd_status.lyc_int_enable && self.lcd_status.curr_line == self.lcd_status.lyc {
                self.int_request = self.int_request | STAT_INTERRUPT_MASK;
            }
            if self.lcd_status.curr_line == 144 {
                self.set_mode(1);
            }
        }
        if self.lcd_status.curr_line < 144 {
            let target: u8 = if self.scanlines_cycles < 80 {
                2
            } else if self.scanlines_cycles < 252 {
                3
            } else {
                0
            };
            if target != self.lcd_status.mode {
                self.set_mode(target);
            }
        }
    }

    /// Advances the LCD by `cycles` CPU cycles, one cycle at a time.
    ///
    /// A line lasts 456 cycles and a frame 154 lines; LY counts the lines.
    /// Entering line 144 starts VBlank (mode 1) and raises its interrupt.
    /// Within lines 0-143 the mode follows the cycle within the line, and
    /// entering HBlank draws the line. Nothing happens while the LCD is off.
    pub fn update_graphics(&mut self, cycles: u32)
        requires
            old(self).wf(),
        ensures
            final(self).wf(),
            old(self).update_post(*final(self), cycles),
    {
        if !self.lcd_control.lcd_on {
            return;
        }
        let ghost pre = *self;
        let ghost mut states: Seq<Lcd> = seq![pre];
        let mut done: u32 = 0;
        while done < cycles
            invariant
                states.len() == done + 1,
                states[0] == pre,
                states[done as int] == *self,
                forall|i: int| 0 <= i < done ==> #[trigger] states[i].tick_post(states[i + 1]),
                self.wf(),
                pre.wf(),
                pre.lcd_control.lcd_on,
                done <= cycles,
                *self == (Lcd {
                    screen_data: self.screen_data,
                    int_request: self.int_request,
                    scanlines_cycles: self.scanlines_cycles,
                    lcd_status: LcdStatus { curr_line: self.lcd_status.curr_line, mode: self.lcd_status.mode, ..pre.lcd_status },
                    ..pre
                }),
                self.position() == (pre.position() + done) % 70224,
                done > 0 ==> self.lcd_status.mode == mode_at(self.ly(), self.scanlines_cycles),
                bit8(self.int_request, 0) == (bit8(pre.int_request, 0) || enters_vblank(pre.position(), done as nat)),
                forall|i: u8| 2 <= i < 8 ==> #[trigger] bit8(self.int_request, i) == bit8(pre.int_request, i),
            decreases cycles - done,
        {
            self.tick();
            proof {
                states = states.push(*self);
            }
            done = done + 1;
            proof {
                vstd::arithmetic::div_mod::lemma_add_mod_noop(pre.position() + done - 1, 1, 70224);
                vstd::arithmetic::div_mod::lemma_mod_self_0(70224);
            }
        }
    }
}


impl Lcd {
    /// `after` is the LCD one cycle after `self`: the cycle within the line
    /// advances, and at its end the next line starts, with the LY == LYC
    /// interrupt if enabled; entering line 144 enters VBlank; within lines
    /// 0-143 the mode follows the cycle, and each mode entered raises its
    /// interrupts, entering HBlank drawing the line first.
    pub open spec fn tick_post(&self, after: Lcd) -> bool {
        let sc1 = self.scanlines_cycles + 1;
        let wrap = sc1 >= 456;
        let sc: u32 = if wrap { 0 } else { sc1 as u32 };
        let ly: u8 = if wrap { ((self.ly() + 1) % 154) as u8 } else { self.ly() };
        let ir1: u8 = if wrap && self.lcd_status.lyc_int_enable && ly == self.lcd_status.lyc {
            self.int_request | STAT_INTERRUPT_MASK
        } else {
            self.int_request
        };
        let vblank = wrap && ly == 144;
        let ir2: u8 = if vblank { ir1 | mode_irq(self.lcd_status, 1) } else { ir1 };
        let mode1: u8 = if vblank { 1 } else { self.lcd_status.mode };
        let target = mode_at(ly, sc);
        let change = ly < 144 && target != mode1;
        let ir3: u8 = if change { ir2 | mode_irq(self.lcd_status, target) } else { ir2 };
        let mode2: u8 = if change { target } else { mode1 };
        &&& after == (Lcd {
            screen_data: after.screen_data,
            int_request: ir3,
            scanlines_cycles: sc,
            lcd_status: LcdStatus { curr_line: ly, mode: mode2, ..self.lcd_status },
            ..*self
        })
        &&& if change && target == 0 {
            (Lcd { scanlines_cycles: sc, ..*self }).line_drawn(after.screen_data)
        } else {
            after.screen_data == self.screen_data
        }
    }

    /// `after` is the LCD once `cycles` cycles have run from `self`.
    pub open spec fn update_post(&self, after: Lcd, cycles: u32) -> bool {
        &&& after.wf()
        &&& (!self.lcd_control.lcd_on ==> after == *self)
        &&& (self.lcd_control.lcd_on ==> {
            &&& after == (Lcd {
                screen_data: after.screen_data,
                int_request: after.int_request,
                scanlines_cycles: after.scanlines_cycles,
                lcd_status: LcdStatus {
                    curr_line: after.lcd_status.curr_line,
                    mode: after.lcd_status.mode,
                    ..self.lcd_status
                },
                ..*self
            })
            &&& after.position() == (self.position() + cycles) % 70224
            &&& cycles > 0 ==> after.lcd_status.mode == mode_at(after.ly(), after.scanlines_cycles)
            &&& bit8(after.int_request, 0) == (bit8(self.int_request, 0) || enters_vblank(
                self.position(),
                cycles as nat,
            ))
            &&& forall|i: u8| 2 <= i < 8 ==> #[trigger] bit8(after.int_request, i) == bit8(self.int_request, i)
            &&& exists|states: Seq<Lcd>|
                states.len() == cycles + 1 && states[0] == *self && states[cycles as int] == after && forall|i: int|
                    0 <= i < cycles ==> #[trigger] states[i].tick_post(states[i + 1])
        })
    }
}

/// Line `y` is `n` lines after `line` for some `n` below 154.
pub open spec fn line_reached(line: u8, y: int) -> bool {
    exists|n: int| 0 <= n < 154 && #[trigger] ((line + n) % 154) == y
}

/// Over one frame the line counter passes through each of the 154 lines
/// once, one line every 456 cycles, and returns to where it started: from a
/// frame position `p`, `n` lines later LY is `(LY + n) % 154`, those lines
/// are pairwise distinct over `n < 154` and cover every line, and after
/// 70224 cycles the position is `p` again.
pub proof fn lemma_ly_once_per_frame(line: u8, cycles: u32)
    requires
        line < 154,
        cycles < 456,
    ensures
        forall|n: nat| #![trigger (frame_position(line, cycles) + n * 456)]
            ((frame_position(line, cycles) + n * 456) % 70224) / 456 == (line + n) % 154,
        forall|n1: int, n2: int|
            0 <= n1 < 154 && 0 <= n2 < 154 && #[trigger] ((line + n1) % 154) == #[trigger] ((line + n2) % 154)
                ==> n1 == n2,
        forall|y: int| 0 <= y < 154 ==> #[trigger] line_reached(line, y),
        (frame_position(line, cycles) + 70224) % 70224 == frame_position(line, cycles),
{
    let p = frame_position(line, cycles);
    assert forall|n: nat| #![trigger (p + n * 456)] ((p + n * 456) % 70224) / 456 == (line + n) % 154 by {
        let k = line + n;
        let q = k / 154;
        let r = k % 154;
        assert(k == q * 154 + r) by {
            vstd::arithmetic::div_mod::lemma_fundamental_div_mod(k as int, 154);
        }
        assert(p + n * 456 == q * 70224 + (r * 456 + cycles)) by (nonlinear_arith)
            requires
                p == line * 456 + cycles,
                k == line + n,
                k == q * 154 + r,
        ;
        assert(0 <= r * 456 + cycles < 70224) by (nonlinear_arith)
            requires
                0 <= r < 154,
                cycles < 456,
        ;
        lemma_fundamental_div_mod_converse(p + n * 456, 70224, q, r * 456 + cycles);
        lemma_fundamental_div_mod_converse(r * 456 + cycles, 456, r, cycles as int);
    }
    assert forall|y: int| 0 <= y < 154 implies #[trigger] line_reached(line, y) by {
        let n = if y >= line { y - line } else { y + 154 - line };
        assert((line + n) % 154 == y);
    }
    lemma_fundamental_div_mod_converse(p + 70224, 70224, 1, p);
}

} // verus!

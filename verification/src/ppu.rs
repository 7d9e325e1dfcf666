//! The PPU register file and timing state: the eight CPU-visible
//! registers, sprite memory, palette memory, video RAM, and the
//! dot/scanline/frame counters.

use vstd::prelude::*;

use crate::drawing::Colour;

verus! {

/// The control register: one named flag per bit, in hardware order from
/// bit 0 upward (bit 2 is unused by the modeled surface).
#[derive(Copy, Clone, Debug, PartialEq, Eq, Structural)]
pub struct Ctrl {
    pub nametable_0: bool,
    pub nametable_1: bool,
    pub vram_increment: bool,
    pub background_table: bool,
    pub sprite_size: bool,
    pub master_slave: bool,
    pub nmi_enable: bool,
}

/// The control register a latch write of `val` produces.
pub open spec fn ctrl_from_bits(val: u8) -> Ctrl {
    Ctrl {
        nametable_0: val & 0x01 == 0x01,
        nametable_1: val & 0x02 == 0x02,
        vram_increment: val & 0x08 == 0x08,
        background_table: val & 0x10 == 0x10,
        sprite_size: val & 0x20 == 0x20,
        master_slave: val & 0x40 == 0x40,
        nmi_enable: val & 0x80 == 0x80,
    }
}

impl Ctrl {
    /// All flags clear, as at power-on.
    pub fn new() -> (r: Ctrl)
        ensures
            r == ctrl_from_bits(0),
    {
        proof {
            assert(ctrl_from_bits(0) == (Ctrl {
                nametable_0: false,
                nametable_1: false,
                vram_increment: false,
                background_table: false,
                sprite_size: false,
                master_slave: false,
                nmi_enable: false,
            })) by (bit_vector);
        }
        Ctrl {
            nametable_0: false,
            nametable_1: false,
            vram_increment: false,
            background_table: false,
            sprite_size: false,
            master_slave: false,
            nmi_enable: false,
        }
    }

    /// Latch a register write: every flag mirrors its bit of `val`.
    pub fn set_bits(&mut self, val: u8)
        ensures
            *final(self) == ctrl_from_bits(val),
    {
        self.nametable_0 = val & 0x01 == 0x01;
        self.nametable_1 = val & 0x02 == 0x02;
        self.vram_increment = val & 0x08 == 0x08;
        self.background_table = val & 0x10 == 0x10;
        self.sprite_size = val & 0x20 == 0x20;
        self.master_slave = val & 0x40 == 0x40;
        self.nmi_enable = val & 0x80 == 0x80;
    }
}

/// The mask register: one named rendering switch per bit, in hardware
/// order from bit 0 upward.
#[derive(Copy, Clone, Debug, PartialEq, Eq, Structural)]
pub struct Mask {
    pub greyscale: bool,
    pub show_bg_left: bool,
    pub show_spr_left: bool,
    pub show_bg: bool,
    pub show_spr: bool,
    pub emphasise_red: bool,
    pub emphasise_green: bool,
    pub emphasise_blue: bool,
}

/// The mask register a latch write of `val` produces.
pub open spec fn mask_from_bits(val: u8) -> Mask {
    Mask {
        greyscale: val & 0x01 == 0x01,
        show_bg_left: val & 0x02 == 0x02,
        show_spr_left: val & 0x04 == 0x04,
        show_bg: val & 0x08 == 0x08,
        show_spr: val & 0x10 == 0x10,
        emphasise_red: val & 0x20 == 0x20,
        emphasise_green: val & 0x40 == 0x40,
        emphasise_blue: val & 0x80 == 0x80,
    }
}

impl Mask {
    /// All switches off, as at power-on.
    pub fn new() -> (r: Mask)
        ensures
            r == mask_from_bits(0),
    {
        proof {
            assert(mask_from_bits(0) == (Mask {
                greyscale: false,
                show_bg_left: false,
                show_spr_left: false,
                show_bg: false,
                show_spr: false,
                emphasise_red: false,
                emphasise_green: false,
                emphasise_blue: false,
            })) by (bit_vector);
        }
        Mask {
            greyscale: false,
            show_bg_left: false,
            show_spr_left: false,
            show_bg: false,
            show_spr: false,
            emphasise_red: false,
            emphasise_green: false,
            emphasise_blue: false,
        }
    }

    /// Latch a register write: every switch mirrors its bit of `val`.
    pub fn set_bits(&mut self, val: u8)
        ensures
            *final(self) == mask_from_bits(val),
    {
        self.greyscale = val & 0x01 == 0x01;
        self.show_bg_left = val & 0x02 == 0x02;
        self.show_spr_left = val & 0x04 == 0x04;
        self.show_bg = val & 0x08 == 0x08;
        self.show_spr = val & 0x10 == 0x10;
        self.emphasise_red = val & 0x20 == 0x20;
        self.emphasise_green = val & 0x40 == 0x40;
        self.emphasise_blue = val & 0x80 == 0x80;
    }
}

/// The status register: its three meaningful bits. The low five bits are
/// not stored; a CPU read fills them from the bus latch.
#[derive(Copy, Clone, Debug, PartialEq, Eq, Structural)]
pub struct Status {
    pub sprite_overflow: bool,
    pub sprite_0_hit: bool,
    pub vblank: bool,
}

/// The byte view of the status register: vblank at bit 7, sprite-zero hit
/// at bit 6, sprite overflow at bit 5, the rest zero.
pub open spec fn status_bits(s: Status) -> u8 {
    (if s.vblank { 0x80u8 } else { 0u8 }) | (if s.sprite_0_hit { 0x40u8 } else { 0u8 }) | (if s.sprite_overflow { 0x20u8 } else { 0u8 })
}

impl Status {
    /// All bits clear, as at power-on.
    pub fn new() -> (r: Status)
        ensures
            r == (Status { sprite_overflow: false, sprite_0_hit: false, vblank: false }),
    {
        Status { sprite_overflow: false, sprite_0_hit: false, vblank: false }
    }

    /// The byte view of the three stored bits.
    pub fn into_bits(&self) -> (r: u8)
        ensures
            r == status_bits(*self),
    {
        (if self.vblank { 0x80u8 } else { 0u8 }) | (if self.sprite_0_hit { 0x40u8 } else { 0u8 }) | (if self.sprite_overflow { 0x20u8 } else { 0u8 })
    }
}

/// The sprite-memory address latch.
#[derive(Copy, Clone, Debug, PartialEq, Eq, Structural)]
pub struct OamAdr(pub u8);

/// The sprite-memory data latch.
#[derive(Copy, Clone, Debug, PartialEq, Eq, Structural)]
pub struct OamData(pub u8);

/// The two-byte scroll latch.
#[derive(Copy, Clone, Debug, PartialEq, Eq, Structural)]
pub struct Scroll {
    pub x: u8,
    pub y: u8,
}

/// The two-byte video-address latch.
#[derive(Copy, Clone, Debug, PartialEq, Eq, Structural)]
pub struct Adr {
    pub high: u8,
    pub low: u8,
}

/// The video-data latch.
#[derive(Copy, Clone, Debug, PartialEq, Eq, Structural)]
pub struct Data(pub u8);

/// One sprite record of object-attribute memory, in hardware byte order.
#[derive(Copy, Clone, Debug, PartialEq, Eq, Structural)]
pub struct Sprite {
    pub y: u8,
    pub tile: u8,
    pub attr: SpriteAttributes,
    pub x: u8,
}

/// The attribute byte of a sprite: its palette (two bits), render
/// priority, and the two flips.
#[derive(Copy, Clone, Debug, PartialEq, Eq, Structural)]
pub struct SpriteAttributes {
    pub palette: u8,
    pub priority: bool,
    pub flip_h: bool,
    pub flip_v: bool,
}

impl SpriteAttributes {
    /// The palette index names one of the four sprite palettes.
    pub open spec fn wf(&self) -> bool {
        self.palette < 4
    }

    /// All attributes clear.
    pub fn new() -> (r: SpriteAttributes)
        ensures
            r == (SpriteAttributes { palette: 0, priority: false, flip_h: false, flip_v: false }),
    {
        SpriteAttributes { palette: 0, priority: false, flip_h: false, flip_v: false }
    }
}

/// Object-attribute memory: the 64 sprite records.
#[derive(Debug, Clone)]
pub struct Oam {
    pub sprites: Vec<Sprite>,
}

impl Oam {
    /// Exactly 64 records, each with a valid palette index.
    pub open spec fn wf(&self) -> bool {
        self.sprites@.len() == 64 && (forall|k: int|
            0 <= k < 64 ==> (#[trigger] self.sprites@[k]).attr.wf())
    }

    /// The all-zero sprite memory of a fresh machine.
    pub fn new_zeroed() -> (r: Oam)
        ensures
            r.wf(),
            r.sprites@.len() == 64,
            forall|k: int|
                0 <= k < 64 ==> r.sprites@[k] == (Sprite {
                    y: 0,
                    tile: 0,
                    attr: SpriteAttributes { palette: 0, priority: false, flip_h: false, flip_v: false },
                    x: 0,
                }),
    {
        let zero = Sprite {
            y: 0,
            tile: 0,
            attr: SpriteAttributes { palette: 0, priority: false, flip_h: false, flip_v: false },
            x: 0,
        };
        let mut sprites: Vec<Sprite> = Vec::new();
        let mut j: usize = 0;
        while j < 64
            invariant
                j <= 64,
                sprites@.len() == j,
                forall|k: int| 0 <= k < j ==> sprites@[k] == zero,
            decreases 64 - j,
        {
            sprites.push(zero);
            j += 1;
        }
        Oam { sprites }
    }
}

impl Default for Oam {
    /// The all-zero sprite memory.
    fn default() -> (r: Self)
        ensures
            r.wf(),
    {
        Oam::new_zeroed()
    }
}

/// One palette: four colour entries.
#[derive(Debug, Clone)]
pub struct Palette(pub Vec<NesColour>);

impl Palette {
    /// Exactly four entries.
    pub open spec fn wf(&self) -> bool {
        self.0@.len() == 4
    }
}

/// Palette memory: eight palettes of four colour entries each; the
/// second four serve the sprites.
#[derive(Debug, Clone)]
pub struct Palettes(pub Vec<Palette>);

impl Palettes {
    /// Exactly eight palettes of four entries.
    pub open spec fn wf(&self) -> bool {
        self.0@.len() == 8 && (forall|k: int| 0 <= k < 8 ==> (#[trigger] self.0@[k]).wf())
    }

    /// The raw colour codes of the whole palette memory, palette by
    /// palette and entry by entry.
    pub fn as_raw_bytes(&self) -> (r: Vec<u8>)
        requires
            self.wf(),
        ensures
            r@.len() == 32,
            forall|p: int, e: int|
                0 <= p < 8 && 0 <= e < 4 ==> r@[p * 4 + e] == nes_colour_code(
                    self.0@[p].0@[e],
                ),
    {
        let mut r: Vec<u8> = Vec::new();
        let mut p: usize = 0;
        while p < 8
            invariant
                self.wf(),
                p <= 8,
                r@.len() == p * 4,
                forall|q: int, e: int|
                    0 <= q < p && 0 <= e < 4 ==> r@[q * 4 + e] == nes_colour_code(
                        self.0@[q].0@[e],
                    ),
            decreases 8 - p,
        {
            let mut e: usize = 0;
            while e < 4
                invariant
                    self.wf(),
                    p < 8,
                    e <= 4,
                    r@.len() == p * 4 + e,
                    forall|q: int, d: int|
                        0 <= q < p && 0 <= d < 4 ==> r@[q * 4 + d] == nes_colour_code(
                            self.0@[q].0@[d],
                        ),
                    forall|d: int|
                        0 <= d < e ==> r@[p * 4 + d] == nes_colour_code(self.0@[p as int].0@[d]),
                decreases 4 - e,
            {
                r.push(self.0[p].0[e].code());
                e += 1;
            }
            p += 1;
        }
        r
    }
}

/// The hardware palette: every colour the video processor can emit,
/// named by hue and brightness.
#[derive(Copy, Clone, Debug, PartialEq, Eq, Structural)]
pub enum NesColour {
    Black,
    DarkGrey,
    AzureDark,
    BlueDark,
    VioletDark,
    MagentaDark,
    RoseDark,
    RedDark,
    OrangeDark,
    YellowDark,
    ChartreuseDark,
    GreenDark,
    SpringDark,
    CyanDark,
    LightGrey,
    AzureMed,
    BlueMed,
    VioletMed,
    MagentaMed,
    RoseMed,
    RedMed,
    OrangeMed,
    YellowMed,
    ChartreuseMed,
    GreenMed,
    SpringMed,
    CyanMed,
    White,
    AzureLight,
    BlueLight,
    VioletLight,
    MagentaLight,
    RoseLight,
    RedLight,
    OrangeLight,
    YellowLight,
    ChartreuseLight,
    GreenLight,
    SpringLight,
    CyanLight,
    AzurePale,
    BluePale,
    VioletPale,
    MagentaPale,
    RosePale,
    RedPale,
    OrangePale,
    YellowPale,
    ChartreusePale,
    GreenPale,
    SpringPale,
    CyanPale,
}

/// The hardware code of each palette colour.
pub open spec fn nes_colour_code(c: NesColour) -> u8 {
    match c {
        NesColour::Black => 0x0F,
        NesColour::DarkGrey => 0x00,
        NesColour::AzureDark => 0x01,
        NesColour::BlueDark => 0x02,
        NesColour::VioletDark => 0x03,
        NesColour::MagentaDark => 0x04,
        NesColour::RoseDark => 0x05,
        NesColour::RedDark => 0x06,
        NesColour::OrangeDark => 0x07,
        NesColour::YellowDark => 0x08,
        NesColour::ChartreuseDark => 0x09,
        NesColour::GreenDark => 0x0A,
        NesColour::SpringDark => 0x0B,
        NesColour::CyanDark => 0x0C,
        NesColour::LightGrey => 0x10,
        NesColour::AzureMed => 0x11,
        NesColour::BlueMed => 0x12,
        NesColour::VioletMed => 0x13,
        NesColour::MagentaMed => 0x14,
        NesColour::RoseMed => 0x15,
        NesColour::RedMed => 0x16,
        NesColour::OrangeMed => 0x17,
        NesColour::YellowMed => 0x18,
        NesColour::ChartreuseMed => 0x19,
        NesColour::GreenMed => 0x1A,
        NesColour::SpringMed => 0x1B,
        NesColour::CyanMed => 0x1C,
        NesColour::White => 0x20,
        NesColour::AzureLight => 0x21,
        NesColour::BlueLight => 0x22,
        NesColour::VioletLight => 0x23,
        NesColour::MagentaLight => 0x24,
        NesColour::RoseLight => 0x25,
        NesColour::RedLight => 0x26,
        NesColour::OrangeLight => 0x27,
        NesColour::YellowLight => 0x28,
        NesColour::ChartreuseLight => 0x29,
        NesColour::GreenLight => 0x2A,
        NesColour::SpringLight => 0x2B,
        NesColour::CyanLight => 0x2C,
        NesColour::AzurePale => 0x31,
        NesColour::BluePale => 0x32,
        NesColour::VioletPale => 0x33,
        NesColour::MagentaPale => 0x34,
        NesColour::RosePale => 0x35,
        NesColour::RedPale => 0x36,
        NesColour::OrangePale => 0x37,
        NesColour::YellowPale => 0x38,
        NesColour::ChartreusePale => 0x39,
        NesColour::GreenPale => 0x3A,
        NesColour::SpringPale => 0x3B,
        NesColour::CyanPale => 0x3C,
    }
}

/// The display colour of each palette colour.
pub open spec fn spec_colour_of(c: NesColour) -> Colour {
    match c {
        NesColour::Black => Colour { red: 0, green: 0, blue: 0, alpha: 255 },
        NesColour::DarkGrey => Colour { red: 84, green: 84, blue: 84, alpha: 255 },
        NesColour::AzureDark => Colour { red: 0, green: 30, blue: 116, alpha: 255 },
        NesColour::BlueDark => Colour { red: 8, green: 16, blue: 144, alpha: 255 },
        NesColour::VioletDark => Colour { red: 48, green: 0, blue: 136, alpha: 255 },
        NesColour::MagentaDark => Colour { red: 68, green: 0, blue: 100, alpha: 255 },
        NesColour::RoseDark => Colour { red: 92, green: 0, blue: 48, alpha: 255 },
        NesColour::RedDark => Colour { red: 84, green: 4, blue: 0, alpha: 255 },
        NesColour::OrangeDark => Colour { red: 60, green: 24, blue: 0, alpha: 255 },
        NesColour::YellowDark => Colour { red: 32, green: 42, blue: 0, alpha: 255 },
        NesColour::ChartreuseDark => Colour { red: 8, green: 58, blue: 0, alpha: 255 },
        NesColour::GreenDark => Colour { red: 0, green: 64, blue: 0, alpha: 255 },
        NesColour::SpringDark => Colour { red: 0, green: 60, blue: 0, alpha: 255 },
        NesColour::CyanDark => Colour { red: 0, green: 50, blue: 60, alpha: 255 },
        NesColour::LightGrey => Colour { red: 152, green: 150, blue: 152, alpha: 255 },
        NesColour::AzureMed => Colour { red: 8, green: 76, blue: 196, alpha: 255 },
        NesColour::BlueMed => Colour { red: 48, green: 50, blue: 236, alpha: 255 },
        NesColour::VioletMed => Colour { red: 92, green: 30, blue: 228, alpha: 255 },
        NesColour::MagentaMed => Colour { red: 136, green: 20, blue: 176, alpha: 255 },
        NesColour::RoseMed => Colour { red: 160, green: 20, blue: 100, alpha: 255 },
        NesColour::RedMed => Colour { red: 152, green: 34, blue: 32, alpha: 255 },
        NesColour::OrangeMed => Colour { red: 120, green: 60, blue: 0, alpha: 255 },
        NesColour::YellowMed => Colour { red: 84, green: 90, blue: 0, alpha: 255 },
        NesColour::ChartreuseMed => Colour { red: 40, green: 114, blue: 0, alpha: 255 },
        NesColour::GreenMed => Colour { red: 8, green: 124, blue: 0, alpha: 255 },
        NesColour::SpringMed => Colour { red: 0, green: 118, blue: 40, alpha: 255 },
        NesColour::CyanMed => Colour { red: 0, green: 102, blue: 120, alpha: 255 },
        NesColour::White => Colour { red: 236, green: 238, blue: 236, alpha: 255 },
        NesColour::AzureLight => Colour { red: 76, green: 154, blue: 236, alpha: 255 },
        NesColour::BlueLight => Colour { red: 120, green: 124, blue: 236, alpha: 255 },
        NesColour::VioletLight => Colour { red: 176, green: 98, blue: 236, alpha: 255 },
        NesColour::MagentaLight => Colour { red: 228, green: 84, blue: 236, alpha: 255 },
        NesColour::RoseLight => Colour { red: 236, green: 88, blue: 180, alpha: 255 },
        NesColour::RedLight => Colour { red: 236, green: 106, blue: 100, alpha: 255 },
        NesColour::OrangeLight => Colour { red: 212, green: 136, blue: 32, alpha: 255 },
        NesColour::YellowLight => Colour { red: 160, green: 170, blue: 0, alpha: 255 },
        NesColour::ChartreuseLight => Colour { red: 116, green: 196, blue: 0, alpha: 255 },
        NesColour::GreenLight => Colour { red: 76, green: 208, blue: 32, alpha: 255 },
        NesColour::SpringLight => Colour { red: 56, green: 204, blue: 108, alpha: 255 },
        NesColour::CyanLight => Colour { red: 56, green: 180, blue: 204, alpha: 255 },
        NesColour::AzurePale => Colour { red: 236, green: 238, blue: 236, alpha: 255 },
        NesColour::BluePale => Colour { red: 168, green: 204, blue: 236, alpha: 255 },
        NesColour::VioletPale => Colour { red: 188, green: 188, blue: 236, alpha: 255 },
        NesColour::MagentaPale => Colour { red: 212, green: 178, blue: 236, alpha: 255 },
        NesColour::RosePale => Colour { red: 236, green: 174, blue: 236, alpha: 255 },
        NesColour::RedPale => Colour { red: 236, green: 174, blue: 212, alpha: 255 },
        NesColour::OrangePale => Colour { red: 236, green: 180, blue: 176, alpha: 255 },
        NesColour::YellowPale => Colour { red: 228, green: 196, blue: 144, alpha: 255 },
        NesColour::ChartreusePale => Colour { red: 204, green: 210, blue: 120, alpha: 255 },
        NesColour::GreenPale => Colour { red: 180, green: 222, blue: 120, alpha: 255 },
        NesColour::SpringPale => Colour { red: 168, green: 226, blue: 144, alpha: 255 },
        NesColour::CyanPale => Colour { red: 152, green: 226, blue: 180, alpha: 255 },
    }
}

impl NesColour {
    /// The hardware code of this colour.
    pub fn code(&self) -> (r: u8)
        ensures r == nes_colour_code(*self),
    {
        match self {
            NesColour::Black => 0x0F,
            NesColour::DarkGrey => 0x00,
            NesColour::AzureDark => 0x01,
            NesColour::BlueDark => 0x02,
            NesColour::VioletDark => 0x03,
            NesColour::MagentaDark => 0x04,
            NesColour::RoseDark => 0x05,
            NesColour::RedDark => 0x06,
            NesColour::OrangeDark => 0x07,
            NesColour::YellowDark => 0x08,
            NesColour::ChartreuseDark => 0x09,
            NesColour::GreenDark => 0x0A,
            NesColour::SpringDark => 0x0B,
            NesColour::CyanDark => 0x0C,
            NesColour::LightGrey => 0x10,
            NesColour::AzureMed => 0x11,
            NesColour::BlueMed => 0x12,
            NesColour::VioletMed => 0x13,
            NesColour::MagentaMed => 0x14,
            NesColour::RoseMed => 0x15,
            NesColour::RedMed => 0x16,
            NesColour::OrangeMed => 0x17,
            NesColour::YellowMed => 0x18,
            NesColour::ChartreuseMed => 0x19,
            NesColour::GreenMed => 0x1A,
            NesColour::SpringMed => 0x1B,
            NesColour::CyanMed => 0x1C,
            NesColour::White => 0x20,
            NesColour::AzureLight => 0x21,
            NesColour::BlueLight => 0x22,
            NesColour::VioletLight => 0x23,
            NesColour::MagentaLight => 0x24,
            NesColour::RoseLight => 0x25,
            NesColour::RedLight => 0x26,
            NesColour::OrangeLight => 0x27,
            NesColour::YellowLight => 0x28,
            NesColour::ChartreuseLight => 0x29,
            NesColour::GreenLight => 0x2A,
            NesColour::SpringLight => 0x2B,
            NesColour::CyanLight => 0x2C,
            NesColour::AzurePale => 0x31,
            NesColour::BluePale => 0x32,
            NesColour::VioletPale => 0x33,
            NesColour::MagentaPale => 0x34,
            NesColour::RosePale => 0x35,
            NesColour::RedPale => 0x36,
            NesColour::OrangePale => 0x37,
            NesColour::YellowPale => 0x38,
            NesColour::ChartreusePale => 0x39,
            NesColour::GreenPale => 0x3A,
            NesColour::SpringPale => 0x3B,
            NesColour::CyanPale => 0x3C,
        }
    }
}

impl core::convert::From<NesColour> for Colour {
    /// The display colour of a palette colour.
    fn from(c: NesColour) -> (r: Colour) {
        match c {
            NesColour::Black => Colour { red: 0, green: 0, blue: 0, alpha: 255 },
            NesColour::DarkGrey => Colour { red: 84, green: 84, blue: 84, alpha: 255 },
            NesColour::AzureDark => Colour { red: 0, green: 30, blue: 116, alpha: 255 },
            NesColour::BlueDark => Colour { red: 8, green: 16, blue: 144, alpha: 255 },
            NesColour::VioletDark => Colour { red: 48, green: 0, blue: 136, alpha: 255 },
            NesColour::MagentaDark => Colour { red: 68, green: 0, blue: 100, alpha: 255 },
            NesColour::RoseDark => Colour { red: 92, green: 0, blue: 48, alpha: 255 },
            NesColour::RedDark => Colour { red: 84, green: 4, blue: 0, alpha: 255 },
            NesColour::OrangeDark => Colour { red: 60, green: 24, blue: 0, alpha: 255 },
            NesColour::YellowDark => Colour { red: 32, green: 42, blue: 0, alpha: 255 },
            NesColour::ChartreuseDark => Colour { red: 8, green: 58, blue: 0, alpha: 255 },
            NesColour::GreenDark => Colour { red: 0, green: 64, blue: 0, alpha: 255 },
            NesColour::SpringDark => Colour { red: 0, green: 60, blue: 0, alpha: 255 },
            NesColour::CyanDark => Colour { red: 0, green: 50, blue: 60, alpha: 255 },
            NesColour::LightGrey => Colour { red: 152, green: 150, blue: 152, alpha: 255 },
            NesColour::AzureMed => Colour { red: 8, green: 76, blue: 196, alpha: 255 },
            NesColour::BlueMed => Colour { red: 48, green: 50, blue: 236, alpha: 255 },
            NesColour::VioletMed => Colour { red: 92, green: 30, blue: 228, alpha: 255 },
            NesColour::MagentaMed => Colour { red: 136, green: 20, blue: 176, alpha: 255 },
            NesColour::RoseMed => Colour { red: 160, green: 20, blue: 100, alpha: 255 },
            NesColour::RedMed => Colour { red: 152, green: 34, blue: 32, alpha: 255 },
            NesColour::OrangeMed => Colour { red: 120, green: 60, blue: 0, alpha: 255 },
            NesColour::YellowMed => Colour { red: 84, green: 90, blue: 0, alpha: 255 },
            NesColour::ChartreuseMed => Colour { red: 40, green: 114, blue: 0, alpha: 255 },
            NesColour::GreenMed => Colour { red: 8, green: 124, blue: 0, alpha: 255 },
            NesColour::SpringMed => Colour { red: 0, green: 118, blue: 40, alpha: 255 },
            NesColour::CyanMed => Colour { red: 0, green: 102, blue: 120, alpha: 255 },
            NesColour::White => Colour { red: 236, green: 238, blue: 236, alpha: 255 },
            NesColour::AzureLight => Colour { red: 76, green: 154, blue: 236, alpha: 255 },
            NesColour::BlueLight => Colour { red: 120, green: 124, blue: 236, alpha: 255 },
            NesColour::VioletLight => Colour { red: 176, green: 98, blue: 236, alpha: 255 },
            NesColour::MagentaLight => Colour { red: 228, green: 84, blue: 236, alpha: 255 },
            NesColour::RoseLight => Colour { red: 236, green: 88, blue: 180, alpha: 255 },
            NesColour::RedLight => Colour { red: 236, green: 106, blue: 100, alpha: 255 },
            NesColour::OrangeLight => Colour { red: 212, green: 136, blue: 32, alpha: 255 },
            NesColour::YellowLight => Colour { red: 160, green: 170, blue: 0, alpha: 255 },
            NesColour::ChartreuseLight => Colour { red: 116, green: 196, blue: 0, alpha: 255 },
            NesColour::GreenLight => Colour { red: 76, green: 208, blue: 32, alpha: 255 },
            NesColour::SpringLight => Colour { red: 56, green: 204, blue: 108, alpha: 255 },
            NesColour::CyanLight => Colour { red: 56, green: 180, blue: 204, alpha: 255 },
            NesColour::AzurePale => Colour { red: 236, green: 238, blue: 236, alpha: 255 },
            NesColour::BluePale => Colour { red: 168, green: 204, blue: 236, alpha: 255 },
            NesColour::VioletPale => Colour { red: 188, green: 188, blue: 236, alpha: 255 },
            NesColour::MagentaPale => Colour { red: 212, green: 178, blue: 236, alpha: 255 },
            NesColour::RosePale => Colour { red: 236, green: 174, blue: 236, alpha: 255 },
            NesColour::RedPale => Colour { red: 236, green: 174, blue: 212, alpha: 255 },
            NesColour::OrangePale => Colour { red: 236, green: 180, blue: 176, alpha: 255 },
            NesColour::YellowPale => Colour { red: 228, green: 196, blue: 144, alpha: 255 },
            NesColour::ChartreusePale => Colour { red: 204, green: 210, blue: 120, alpha: 255 },
            NesColour::GreenPale => Colour { red: 180, green: 222, blue: 120, alpha: 255 },
            NesColour::SpringPale => Colour { red: 168, green: 226, blue: 144, alpha: 255 },
            NesColour::CyanPale => Colour { red: 152, green: 226, blue: 180, alpha: 255 },
        }
    }
}

impl vstd::std_specs::convert::FromSpecImpl<NesColour> for Colour {
    open spec fn obeys_from_spec() -> bool {
        true
    }

    open spec fn from_spec(c: NesColour) -> Colour {
        spec_colour_of(c)
    }
}

/// The mathematical shape of the PPU: the registers as they are, the
/// memories as sequences. The shared write toggle `w_latch` steers the
/// two-write scroll and address latches and is reset by a status read.
#[verifier::ext_equal]
pub struct PpuV {
    pub ctrl: Ctrl,
    pub mask: Mask,
    pub status: Status,
    pub oam_adr: u8,
    pub oam_data: u8,
    pub scroll: Scroll,
    pub adr: Adr,
    pub data: u8,
    pub w_latch: bool,
    pub scanline: u16,
    pub dot: u16,
    pub frame: u64,
    pub cycles: u64,
    pub vram: Seq<u8>,
    pub oam: Seq<Sprite>,
    pub palettes: Seq<Seq<NesColour>>,
}

/// Well-formedness of the PPU: counters inside the frame grid, every
/// memory at its hardware size, every sprite attribute naming one of the
/// four sprite palettes.
pub open spec fn ppu_wf(p: PpuV) -> bool {
    &&& p.dot <= 340
    &&& p.scanline <= 261
    &&& p.vram.len() == 2048
    &&& p.oam.len() == 64
    &&& (forall|k: int| 0 <= k < 64 ==> (#[trigger] p.oam[k]).attr.wf())
    &&& p.palettes.len() == 8
    &&& (forall|k: int| 0 <= k < 8 ==> (#[trigger] p.palettes[k]).len() == 4)
}

/// The PPU: registers, timing counters, sprite memory, video RAM and
/// palette memory. The shared write toggle `w_latch` steers the two-write
/// scroll and address latches.
#[derive(Debug, Clone)]
pub struct Ppu {
    pub ctrl: Ctrl,
    pub mask: Mask,
    pub status: Status,
    pub oam_adr: OamAdr,
    pub oam_data: OamData,
    pub scroll: Scroll,
    pub adr: Adr,
    pub data: Data,
    pub w_latch: bool,
    pub scanline: u16,
    pub dot: u16,
    pub frame: u64,
    pub cycles: u64,
    pub vram: Vec<u8>,
    pub oam: Oam,
    pub palettes: Palettes,
}

impl View for Ppu {
    type V = PpuV;

    open spec fn view(&self) -> PpuV {
        PpuV {
            ctrl: self.ctrl,
            mask: self.mask,
            status: self.status,
            oam_adr: self.oam_adr.0,
            oam_data: self.oam_data.0,
            scroll: self.scroll,
            adr: self.adr,
            data: self.data.0,
            w_latch: self.w_latch,
            scanline: self.scanline,
            dot: self.dot,
            frame: self.frame,
            cycles: self.cycles,
            vram: self.vram@,
            oam: self.oam.sprites@,
            palettes: self.palettes.0@.map_values(|p: Palette| p.0@),
        }
    }
}

/// The width a sprite covers: sixteen dots under the tall-sprite control
/// flag, eight otherwise.
pub open spec fn spec_sprite_width(sprite_size: bool) -> u16 {
    if sprite_size {
        16
    } else {
        8
    }
}

/// Whether a sprite covers the current dot horizontally.
pub open spec fn spec_sprite_visible_x(dot: u16, width: u16, s: Sprite) -> bool {
    dot <= s.x && (s.x as u16) < dot + width
}

/// Whether a sprite covers the current scanline vertically.
pub open spec fn spec_sprite_visible_y(scanline: u16, s: Sprite) -> bool {
    scanline <= s.y && (s.y as u16) < scanline + 8
}

impl Ppu {
    /// Counters inside the frame grid, every memory at its hardware size.
    pub open spec fn wf(&self) -> bool {
        ppu_wf(self@)
    }

    /// Whether a sprite covers the current dot horizontally.
    pub fn sprite_is_visible_x(&self, sprite: &Sprite) -> (r: bool)
        ensures
            r == spec_sprite_visible_x(
                self.dot,
                spec_sprite_width(self.ctrl.sprite_size),
                *sprite,
            ),
    {
        self.dot <= sprite.x as u16 && (sprite.x as u16) < self.dot + self.sprite_width()
    }

    /// Whether a sprite covers the current scanline vertically.
    pub fn sprite_is_visible_y(&self, sprite: &Sprite) -> (r: bool)
        ensures
            r == spec_sprite_visible_y(self.scanline, *sprite),
    {
        self.scanline <= sprite.y as u16 && (sprite.y as u16) < self.scanline + 8
    }

    /// The width a sprite covers under the current control state.
    pub fn sprite_width(&self) -> (r: u16)
        ensures
            r == spec_sprite_width(self.ctrl.sprite_size),
    {
        if self.ctrl.sprite_size {
            16
        } else {
            8
        }
    }

    /// The colour a sprite contributes to the current dot. The full
    /// tile-fetch pipeline is collapsed to a palette lookup: the first
    /// entry of the sprite palette the attribute byte names.
    pub fn sprite_get_colour(&self, sprite: &Sprite) -> (r: Colour)
        requires
            self.wf(),
            sprite.attr.wf(),
        ensures
            r == spec_colour_of(self@.palettes[4 + sprite.attr.palette][0]),
    {
        let idx = 4 + sprite.attr.palette as usize;
        proof {
            assert(self@.palettes.len() == self.palettes.0@.len());
            assert(self@.palettes[idx as int] == self.palettes.0@[idx as int].0@);
        }
        let c = self.palettes.0[idx].0[0];
        Colour::from(c)
    }

    /// The background colour of the current dot. The tile-fetch pipeline
    /// is collapsed to a palette lookup: the first entry of the first
    /// background palette.
    pub fn background_get_colour(&self) -> (r: Colour)
        requires
            self.wf(),
        ensures
            r == spec_colour_of(self@.palettes[0][0]),
    {
        proof {
            assert(self@.palettes.len() == self.palettes.0@.len());
            assert(self@.palettes[0] == self.palettes.0@[0].0@);
        }
        let c = self.palettes.0[0].0[0];
        Colour::from(c)
    }
}

impl Default for Ppu {
    /// The power-on state: every register and counter clear, video RAM
    /// and sprite memory zeroed, every palette entry dark grey.
    fn default() -> (r: Self)
        ensures
            r.wf(),
            r.ctrl == ctrl_from_bits(0),
            r.mask == mask_from_bits(0),
            r.status == (Status { sprite_overflow: false, sprite_0_hit: false, vblank: false }),
            r.oam_adr == OamAdr(0),
            r.oam_data == OamData(0),
            r.scroll == (Scroll { x: 0, y: 0 }),
            r.adr == (Adr { high: 0, low: 0 }),
            r.data == Data(0),
            r.w_latch == false,
            r.scanline == 0,
            r.dot == 0,
            r.frame == 0,
            r.cycles == 0,
            forall|k: int| 0 <= k < 2048 ==> r.vram@[k] == 0u8,
            forall|k: int|
                0 <= k < 64 ==> r.oam.sprites@[k] == (Sprite {
                    y: 0,
                    tile: 0,
                    attr: SpriteAttributes {
                        palette: 0,
                        priority: false,
                        flip_h: false,
                        flip_v: false,
                    },
                    x: 0,
                }),
            forall|p: int, e: int|
                0 <= p < 8 && 0 <= e < 4 ==> r.palettes.0@[p].0@[e] == NesColour::DarkGrey,
    {
        let mut palettes: Vec<Palette> = Vec::new();
        let mut p: usize = 0;
        while p < 8
            invariant
                p <= 8,
                palettes@.len() == p,
                forall|q: int| 0 <= q < p ==> (#[trigger] palettes@[q]).wf(),
                forall|q: int, e: int|
                    0 <= q < p && 0 <= e < 4 ==> palettes@[q].0@[e] == NesColour::DarkGrey,
            decreases 8 - p,
        {
            let mut entries: Vec<NesColour> = Vec::new();
            let mut e: usize = 0;
            while e < 4
                invariant
                    e <= 4,
                    entries@.len() == e,
                    forall|d: int| 0 <= d < e ==> entries@[d] == NesColour::DarkGrey,
                decreases 4 - e,
            {
                entries.push(NesColour::DarkGrey);
                e += 1;
            }
            palettes.push(Palette(entries));
            p += 1;
        }
        Ppu {
            ctrl: Ctrl::new(),
            mask: Mask::new(),
            status: Status::new(),
            oam_adr: OamAdr(0),
            oam_data: OamData(0),
            scroll: Scroll { x: 0, y: 0 },
            adr: Adr { high: 0, low: 0 },
            data: Data(0),
            w_latch: false,
            scanline: 0,
            dot: 0,
            frame: 0,
            cycles: 0,
            vram: crate::buf::zero_vec(2048),
            oam: Oam::new_zeroed(),
            palettes: Palettes(palettes),
        }
    }
}


/// The value a CPU read of a PPU register returns, before side effects:
/// the status register exposes its three bits over the low bits of the
/// bus latch; the sprite-data and video-data latches read back; every
/// other register reads as the open bus.
pub open spec fn ppu_reg_value(p: PpuV, bus: u8, adr: u16) -> u8 {
    let r = adr % 8;
    if r == 2 {
        (status_bits(p.status) & 0xE0) | (bus & 0x1F)
    } else if r == 4 {
        p.oam_data
    } else if r == 7 {
        p.data
    } else {
        bus
    }
}

/// The PPU after a CPU read of one of its registers: reading the status
/// register clears the vblank bit and resets the shared write toggle;
/// no other modeled register has a read side effect.
pub open spec fn ppu_read_effect(p: PpuV, adr: u16) -> PpuV {
    if adr % 8 == 2 {
        PpuV { status: Status { vblank: false, ..p.status }, w_latch: false, ..p }
    } else {
        p
    }
}

/// The sprite attributes an attribute byte unpacks to.
pub open spec fn attr_from_bits(val: u8) -> SpriteAttributes {
    SpriteAttributes {
        palette: val & 0x03,
        priority: val & 0x20 == 0x20,
        flip_h: val & 0x40 == 0x40,
        flip_v: val & 0x80 == 0x80,
    }
}

/// One byte of a sprite record replaced, in hardware order: Y, tile,
/// attributes, X.
pub open spec fn sprite_with_byte(s: Sprite, field: u8, val: u8) -> Sprite {
    if field == 0 {
        Sprite { y: val, ..s }
    } else if field == 1 {
        Sprite { tile: val, ..s }
    } else if field == 2 {
        Sprite { attr: attr_from_bits(val), ..s }
    } else {
        Sprite { x: val, ..s }
    }
}

/// The PPU after a CPU write to one of its registers: the control and
/// mask registers latch their bit sets; a sprite-data write stores one
/// byte of the record the sprite pointer names and auto-increments the
/// pointer; the scroll and address pairs fill under the shared two-write
/// toggle; a status write is ignored.
#[verifier::opaque]
pub open spec fn ppu_write_spec(p: PpuV, adr: u16, val: u8) -> PpuV {
    let r = adr % 8;
    if r == 0 {
        PpuV { ctrl: ctrl_from_bits(val), ..p }
    } else if r == 1 {
        PpuV { mask: mask_from_bits(val), ..p }
    } else if r == 2 {
        p
    } else if r == 3 {
        PpuV { oam_adr: val, ..p }
    } else if r == 4 {
        PpuV {
            oam_data: val,
            oam: p.oam.update(
                (p.oam_adr / 4) as int,
                sprite_with_byte(p.oam[(p.oam_adr / 4) as int], p.oam_adr % 4, val),
            ),
            oam_adr: p.oam_adr.wrapping_add(1),
            ..p
        }
    } else if r == 5 {
        if !p.w_latch {
            PpuV { scroll: Scroll { x: val, ..p.scroll }, w_latch: true, ..p }
        } else {
            PpuV { scroll: Scroll { y: val, ..p.scroll }, w_latch: false, ..p }
        }
    } else if r == 6 {
        if !p.w_latch {
            PpuV { adr: Adr { high: val, ..p.adr }, w_latch: true, ..p }
        } else {
            PpuV { adr: Adr { low: val, ..p.adr }, w_latch: false, ..p }
        }
    } else {
        PpuV { data: val, ..p }
    }
}


impl Ppu {
    /// Store one byte of the sprite record the sprite pointer names, set
    /// the sprite-data latch, and auto-increment the pointer.
    fn write_oam_byte(&mut self, val: u8)
        requires
            ppu_wf(old(self)@),
        ensures
            final(self)@ == (PpuV {
                oam_data: val,
                oam: old(self)@.oam.update(
                    (old(self)@.oam_adr / 4) as int,
                    sprite_with_byte(
                        old(self)@.oam[(old(self)@.oam_adr / 4) as int],
                        old(self)@.oam_adr % 4,
                        val,
                    ),
                ),
                oam_adr: old(self)@.oam_adr.wrapping_add(1),
                ..old(self)@
            }),
            ppu_wf(final(self)@),
    {
        let oa = self.oam_adr.0;
        let si = (oa / 4) as usize;
        let mut spr = self.oam.sprites[si];
        let fld = oa % 4;
        if fld == 0 {
            spr.y = val;
        } else if fld == 1 {
            spr.tile = val;
        } else if fld == 2 {
            proof {
                assert(val & 0x03 < 4) by (bit_vector);
            }
            spr.attr = SpriteAttributes {
                palette: val & 0x03,
                priority: val & 0x20 == 0x20,
                flip_h: val & 0x40 == 0x40,
                flip_v: val & 0x80 == 0x80,
            };
        } else {
            spr.x = val;
        }
        self.oam.sprites.set(si, spr);
        self.oam_data = OamData(val);
        self.oam_adr = OamAdr(oa.wrapping_add(1));
        proof {
            assert(self@ =~~= (PpuV {
                oam_data: val,
                oam: old(self)@.oam.update(
                    (old(self)@.oam_adr / 4) as int,
                    sprite_with_byte(
                        old(self)@.oam[(old(self)@.oam_adr / 4) as int],
                        old(self)@.oam_adr % 4,
                        val,
                    ),
                ),
                oam_adr: old(self)@.oam_adr.wrapping_add(1),
                ..old(self)@
            }));
        }
    }

    /// The register writes of the first half of the window: control,
    /// mask, the ignored status slot, and the sprite pointer.
    #[verifier::rlimit(100)]
    #[verifier::spinoff_prover]
    fn write_reg_low(&mut self, adr: u16, val: u8)
        requires
            ppu_wf(old(self)@),
            adr % 8 < 4,
        ensures
            final(self)@ == ppu_write_spec(old(self)@, adr, val),
            ppu_wf(final(self)@),
    {
        let ghost p0 = self@;
        let reg = adr % 8;
        if reg == 0 {
            self.ctrl.set_bits(val);
            proof {
                reveal(ppu_write_spec);
                assert(self@ =~= ppu_write_spec(p0, adr, val));
            }
            return;
        } else if reg == 1 {
            self.mask.set_bits(val);
            proof {
                reveal(ppu_write_spec);
                assert(self@ =~= ppu_write_spec(p0, adr, val));
            }
            return;
        } else if reg == 2 {
            proof {
                reveal(ppu_write_spec);
                assert(self@ =~= ppu_write_spec(p0, adr, val));
            }
            return;
        } else {
            self.oam_adr = OamAdr(val);
            proof {
                reveal(ppu_write_spec);
                assert(self@ =~= ppu_write_spec(p0, adr, val));
            }
            return;
        }
    }

    /// A write to the sprite data port.
    #[verifier::rlimit(100)]
    #[verifier::spinoff_prover]
    fn write_reg_oam(&mut self, adr: u16, val: u8)
        requires
            ppu_wf(old(self)@),
            adr % 8 == 4,
        ensures
            final(self)@ == ppu_write_spec(old(self)@, adr, val),
            ppu_wf(final(self)@),
    {
        let ghost p0 = self@;
        self.write_oam_byte(val);
        proof {
            reveal(ppu_write_spec);
            assert(self@ =~= ppu_write_spec(p0, adr, val));
        }
    }

    /// A write to the scroll latch pair, under the shared toggle.
    #[verifier::rlimit(100)]
    #[verifier::spinoff_prover]
    fn write_reg_scroll(&mut self, adr: u16, val: u8)
        requires
            ppu_wf(old(self)@),
            adr % 8 == 5,
        ensures
            final(self)@ == ppu_write_spec(old(self)@, adr, val),
            ppu_wf(final(self)@),
    {
        let ghost p0 = self@;
        if !self.w_latch {
            self.scroll.x = val;
            self.w_latch = true;
        } else {
            self.scroll.y = val;
            self.w_latch = false;
        }
        proof {
            reveal(ppu_write_spec);
            assert(self@ =~= ppu_write_spec(p0, adr, val));
        }
    }

    /// A write to the video-address latch pair, under the shared toggle.
    #[verifier::rlimit(100)]
    #[verifier::spinoff_prover]
    fn write_reg_adr(&mut self, adr: u16, val: u8)
        requires
            ppu_wf(old(self)@),
            adr % 8 == 6,
        ensures
            final(self)@ == ppu_write_spec(old(self)@, adr, val),
            ppu_wf(final(self)@),
    {
        let ghost p0 = self@;
        if !self.w_latch {
            self.adr.high = val;
            self.w_latch = true;
        } else {
            self.adr.low = val;
            self.w_latch = false;
        }
        proof {
            reveal(ppu_write_spec);
            assert(self@ =~= ppu_write_spec(p0, adr, val));
        }
    }

    /// A write to the video-data latch.
    #[verifier::rlimit(100)]
    #[verifier::spinoff_prover]
    fn write_reg_data(&mut self, adr: u16, val: u8)
        requires
            ppu_wf(old(self)@),
            adr % 8 == 7,
        ensures
            final(self)@ == ppu_write_spec(old(self)@, adr, val),
            ppu_wf(final(self)@),
    {
        let ghost p0 = self@;
        self.data = Data(val);
        proof {
            reveal(ppu_write_spec);
            assert(self@ =~= ppu_write_spec(p0, adr, val));
        }
    }

    /// Latch a CPU write into a register, with its documented side
    /// effects, as `ppu_write_spec` lays out.
    pub fn write_reg(&mut self, adr: u16, val: u8)
        requires
            ppu_wf(old(self)@),
        ensures
            final(self)@ == ppu_write_spec(old(self)@, adr, val),
            ppu_wf(final(self)@),
    {
        if adr % 8 < 4 {
            self.write_reg_low(adr, val);
        } else if adr % 8 == 4 {
            self.write_reg_oam(adr, val);
        } else if adr % 8 == 5 {
            self.write_reg_scroll(adr, val);
        } else if adr % 8 == 6 {
            self.write_reg_adr(adr, val);
        } else {
            self.write_reg_data(adr, val);
        }
    }
}

} // verus!

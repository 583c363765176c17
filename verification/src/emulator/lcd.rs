use vstd::prelude::*;
use crate::emulator::dma::DMA;
use crate::emulator::dma::DMA_ADDR;

verus! {

pub const LCD_START_ADDR: u16 = 0xFF40;

pub const LCD_END_ADDR: u16 = 0xFF4B;

pub const LCD_ENABLE_MASK: u8 = 0x80;

pub const WIN_TILE_MAP_MASK: u8 = 0x40;

pub const WIN_ENABLE_MASK: u8 = 0x20;

pub const BG_TILE_DATA_MASK: u8 = 0x10;

pub const BG_TILE_MAP_MASK: u8 = 0x08;

pub const OBJ_SIZE_MASK: u8 = 0x04;

pub const OBJ_ENABLE_MASK: u8 = 0x02;

pub const BGW_ENABLE_MASK: u8 = 0x01;

pub const LYC_INT_MASK: u8 = 0x40;

pub const OAM_INT_MASK: u8 = 0x20;

pub const VBLANK_INT_MASK: u8 = 0x10;

pub const HBLANK_INT_MASK: u8 = 0x08;

/// The four modes of the PPU, as STAT reports them in its low two bits.
#[derive(Debug, PartialEq, Eq, Structural, Clone, Copy)]
#[allow(non_camel_case_types)]
pub enum LCD_MODE {
    MODE_HBLANK,
    MODE_VBLANK,
    MODE_OAM,
    MODE_XFER,
}

/// The LCD registers at 0xFF40 to 0xFF4B and the three shade tables that
/// the palette registers select.
#[derive(Debug, Clone, Copy)]
pub struct LCD {
    /// LCDC - LCD control.
    pub lcdc: u8,
    /// STAT - LCD status.
    pub lcds: u8,
    /// SCY - scroll Y.
    pub scroll_y: u8,
    /// SCX - scroll X.
    pub scroll_x: u8,
    /// LY - the current line.
    pub ly: u8,
    /// LYC - the line LY is compared with.
    pub lyc: u8,
    /// The last byte written to the DMA register.
    pub dma: u8,
    /// BGP as it was at reset.
    pub bg_palette: u8,
    /// OBP0 and OBP1 as they were at reset.
    pub obj_palette: [u8; 2],
    /// WY - window Y position.
    pub win_y: u8,
    /// WX - window X position.
    pub win_x: u8,
    /// The shades of the four background colours.
    pub bg_colors: [u32; 4],
    /// The shades of the four colours of object palette 0.
    pub sp1_colors: [u32; 4],
    /// The shades of the four colours of object palette 1.
    pub sp2_colors: [u32; 4],
}

/// The four shades of the screen as ARGB, from white to black.
pub open spec fn spec_shade(index: int) -> u32 {
    if index == 0 {
        0xFFFFFFFF
    } else if index == 1 {
        0xFFAAAAAA
    } else if index == 2 {
        0xFF555555
    } else {
        0xFF000000
    }
}

/// The shade table a palette byte selects: colour `i` takes the shade
/// named by bits `2i` and `2i + 1`.
pub open spec fn spec_palette(data: u8) -> [u32; 4] {
    [
        spec_shade(data as int % 4),
        spec_shade((data as int / 4) % 4),
        spec_shade((data as int / 16) % 4),
        spec_shade((data as int / 64) % 4),
    ]
}

pub fn shade(index: u8) -> (r: u32)
    ensures
        r == spec_shade(index as int),
{
    if index == 0 {
        0xFFFFFFFF
    } else if index == 1 {
        0xFFAAAAAA
    } else if index == 2 {
        0xFF555555
    } else {
        0xFF000000
    }
}

impl LCD_MODE {
    /// The mode's two-bit code.
    pub open spec fn spec_code(self) -> u8 {
        match self {
            LCD_MODE::MODE_HBLANK => 0,
            LCD_MODE::MODE_VBLANK => 1,
            LCD_MODE::MODE_OAM => 2,
            LCD_MODE::MODE_XFER => 3,
        }
    }

    /// The mode with the given code; for a code above 3, XFER.
    pub open spec fn spec_from_code(code: int) -> LCD_MODE {
        if code == 0 {
            LCD_MODE::MODE_HBLANK
        } else if code == 1 {
            LCD_MODE::MODE_VBLANK
        } else if code == 2 {
            LCD_MODE::MODE_OAM
        } else {
            LCD_MODE::MODE_XFER
        }
    }

    pub fn code(self) -> (r: u8)
        ensures
            r == self.spec_code(),
    {
        match self {
            LCD_MODE::MODE_HBLANK => 0,
            LCD_MODE::MODE_VBLANK => 1,
            LCD_MODE::MODE_OAM => 2,
            LCD_MODE::MODE_XFER => 3,
        }
    }

    /// The mode with the given two-bit code, or an error for a larger
    /// number.
    pub fn try_from(value: u8) -> (r: Result<LCD_MODE, ()>)
        ensures
            value <= 3 ==> r == Ok::<LCD_MODE, ()>(LCD_MODE::spec_from_code(value as int)),
            value > 3 ==> r is Err,
    {
        if value == 0 {
            Ok(LCD_MODE::MODE_HBLANK)
        } else if value == 1 {
            Ok(LCD_MODE::MODE_VBLANK)
        } else if value == 2 {
            Ok(LCD_MODE::MODE_OAM)
        } else if value == 3 {
            Ok(LCD_MODE::MODE_XFER)
        } else {
            Err(())
        }
    }
}

impl LCD {
    /// The registers after reset, with STAT reporting the OAM mode.
    pub open spec fn spec_init() -> LCD {
        LCD {
            lcdc: 0x91,
            lcds: 2,
            scroll_y: 0,
            scroll_x: 0,
            ly: 0,
            lyc: 0,
            dma: 0,
            bg_palette: 0xFC,
            obj_palette: [0xFF, 0xFF],
            win_y: 0,
            win_x: 0,
            bg_colors: spec_palette(0xE4),
            sp1_colors: spec_palette(0xE4),
            sp2_colors: spec_palette(0xE4),
        }
    }

    /// What a read of the register at `addr` returns.
    pub open spec fn spec_read(self, addr: u16) -> u8 {
        if addr == 0xFF40 {
            self.lcdc
        } else if addr == 0xFF41 {
            self.lcds
        } else if addr == 0xFF42 {
            self.scroll_y
        } else if addr == 0xFF43 {
            self.scroll_x
        } else if addr == 0xFF44 {
            self.ly
        } else if addr == 0xFF45 {
            self.lyc
        } else if addr == 0xFF46 {
            self.dma
        } else if addr == 0xFF47 {
            self.bg_palette
        } else if addr == 0xFF48 {
            self.obj_palette[0]
        } else if addr == 0xFF49 {
            self.obj_palette[1]
        } else if addr == 0xFF4A {
            self.win_y
        } else {
            self.win_x
        }
    }

    /// The registers after the shade table `palette` (0 background, 1 and 2
    /// the objects) is set from a palette byte.
    pub open spec fn spec_update_palette(self, palette_data: u8, palette: u8) -> LCD {
        if palette == 0 {
            LCD { bg_colors: spec_palette(palette_data), ..self }
        } else if palette == 1 {
            LCD { sp1_colors: spec_palette(palette_data), ..self }
        } else {
            LCD { sp2_colors: spec_palette(palette_data), ..self }
        }
    }

    /// The registers after a write of `value` to the register at `addr`. A
    /// write to a palette register sets the shade table and leaves the
    /// register byte; for the objects colour 0 is transparent and always
    /// white in the table.
    pub open spec fn spec_write(self, addr: u16, value: u8) -> LCD {
        if addr == 0xFF40 {
            LCD { lcdc: value, ..self }
        } else if addr == 0xFF41 {
            LCD { lcds: value, ..self }
        } else if addr == 0xFF42 {
            LCD { scroll_y: value, ..self }
        } else if addr == 0xFF43 {
            LCD { scroll_x: value, ..self }
        } else if addr == 0xFF44 {
            LCD { ly: value, ..self }
        } else if addr == 0xFF45 {
            LCD { lyc: value, ..self }
        } else if addr == 0xFF46 {
            LCD { dma: value, ..self }
        } else if addr == 0xFF47 {
            self.spec_update_palette(value, 0)
        } else if addr == 0xFF48 {
            self.spec_update_palette((value - value % 4) as u8, 1)
        } else if addr == 0xFF49 {
            self.spec_update_palette((value - value % 4) as u8, 2)
        } else if addr == 0xFF4A {
            LCD { win_y: value, ..self }
        } else {
            LCD { win_x: value, ..self }
        }
    }

    pub open spec fn spec_lcdc_flag(self, mask: u8) -> bool {
        (self.lcdc & mask) != 0
    }

    pub open spec fn spec_win_tile_map_area(self) -> u16 {
        if self.spec_lcdc_flag(WIN_TILE_MAP_MASK) {
            0x9C00
        } else {
            0x9800
        }
    }

    pub open spec fn spec_bg_tile_data_area(self) -> u16 {
        if self.spec_lcdc_flag(BG_TILE_DATA_MASK) {
            0x8000
        } else {
            0x8800
        }
    }

    pub open spec fn spec_bg_tile_map_area(self) -> u16 {
        if self.spec_lcdc_flag(BG_TILE_MAP_MASK) {
            0x9C00
        } else {
            0x9800
        }
    }

    /// The height of every object in lines.
    pub open spec fn spec_obj_size(self) -> u8 {
        if self.spec_lcdc_flag(OBJ_SIZE_MASK) {
            16
        } else {
            8
        }
    }

    /// The mode in the low two bits of STAT.
    pub open spec fn spec_mode(self) -> LCD_MODE {
        LCD_MODE::spec_from_code(self.lcds as int % 4)
    }

    /// STAT with its low two bits replaced by the mode's code.
    pub open spec fn spec_set_mode(self, mode: LCD_MODE) -> LCD {
        LCD { lcds: (self.lcds - self.lcds % 4 + mode.spec_code()) as u8, ..self }
    }

    /// Bit 2 of STAT: LY equals LYC.
    pub open spec fn spec_lyc(self) -> bool {
        (self.lcds / 4) % 2 == 1
    }

    /// STAT with bit 2 replaced.
    pub open spec fn spec_set_lyc(self, value: bool) -> LCD {
        LCD {
            lcds: (self.lcds - ((self.lcds / 4) % 2) * 4 + (if value {
                4int
            } else {
                0int
            })) as u8,
            ..self
        }
    }

    pub open spec fn spec_lcds_flag(self, mask: u8) -> bool {
        (self.lcds & mask) != 0
    }

    /// The registers after reset.
    pub fn init() -> (l: LCD)
        ensures
            l == LCD::spec_init(),
    {
        LCD {
            lcdc: 0x91,
            lcds: 2,
            scroll_y: 0,
            scroll_x: 0,
            ly: 0,
            lyc: 0,
            dma: 0,
            bg_palette: 0xFC,
            obj_palette: [0xFF, 0xFF],
            win_y: 0,
            win_x: 0,
            bg_colors: [0xFFFFFFFF, 0xFFAAAAAA, 0xFF555555, 0xFF000000],
            sp1_colors: [0xFFFFFFFF, 0xFFAAAAAA, 0xFF555555, 0xFF000000],
            sp2_colors: [0xFFFFFFFF, 0xFFAAAAAA, 0xFF555555, 0xFF000000],
        }
    }

    /// Reads the register at `addr`.
    pub fn read(&self, addr: u16) -> (r: u8)
        requires
            LCD_START_ADDR <= addr <= LCD_END_ADDR,
        ensures
            r == self.spec_read(addr),
    {
        if addr == 0xFF40 {
            self.lcdc
        } else if addr == 0xFF41 {
            self.lcds
        } else if addr == 0xFF42 {
            self.scroll_y
        } else if addr == 0xFF43 {
            self.scroll_x
        } else if addr == 0xFF44 {
            self.ly
        } else if addr == 0xFF45 {
            self.lyc
        } else if addr == DMA_ADDR {
            self.dma
        } else if addr == 0xFF47 {
            self.bg_palette
        } else if addr == 0xFF48 {
            self.obj_palette[0]
        } else if addr == 0xFF49 {
            self.obj_palette[1]
        } else if addr == 0xFF4A {
            self.win_y
        } else {
            self.win_x
        }
    }

    /// Sets one of the three shade tables from a palette byte.
    pub fn update_palette(&mut self, palette_data: u8, palette: u8)
        requires
            palette < 3,
        ensures
            *final(self) == old(self).spec_update_palette(palette_data, palette),
    {
        let colors: [u32; 4] = [
            shade(palette_data % 4),
            shade((palette_data / 4) % 4),
            shade((palette_data / 16) % 4),
            shade((palette_data / 64) % 4),
        ];
        if palette == 0 {
            self.bg_colors = colors;
        } else if palette == 1 {
            self.sp1_colors = colors;
        } else {
            self.sp2_colors = colors;
        }
    }

    /// Writes the register at `addr`. A write to the DMA register also
    /// starts the OAM transfer.
    pub fn write(&mut self, dma: &mut DMA, addr: u16, value: u8)
        requires
            LCD_START_ADDR <= addr <= LCD_END_ADDR,
        ensures
            *final(self) == old(self).spec_write(addr, value),
            *final(dma) == if addr == DMA_ADDR {
                old(dma).spec_start(value)
            } else {
                *old(dma)
            },
    {
        if addr == 0xFF40 {
            self.lcdc = value;
        } else if addr == 0xFF41 {
            self.lcds = value;
        } else if addr == 0xFF42 {
            self.scroll_y = value;
        } else if addr == 0xFF43 {
            self.scroll_x = value;
        } else if addr == 0xFF44 {
            self.ly = value;
        } else if addr == 0xFF45 {
            self.lyc = value;
        } else if addr == DMA_ADDR {
            self.dma = value;
            dma.start(value);
        } else if addr == 0xFF47 {
            self.update_palette(value, 0);
        } else if addr == 0xFF48 {
            self.update_palette(value - value % 4, 1);
        } else if addr == 0xFF49 {
            self.update_palette(value - value % 4, 2);
        } else if addr == 0xFF4A {
            self.win_y = value;
        } else {
            self.win_x = value;
        }
    }

    pub fn get_lcdc_win_tile_map_area(&self) -> (r: u16)
        ensures
            r == self.spec_win_tile_map_area(),
    {
        if self.get_lcdc_flag(WIN_TILE_MAP_MASK) {
            0x9C00
        } else {
            0x9800
        }
    }

    pub fn get_lcdc_bg_tile_data_area(&self) -> (r: u16)
        ensures
            r == self.spec_bg_tile_data_area(),
    {
        if self.get_lcdc_flag(BG_TILE_DATA_MASK) {
            0x8000
        } else {
            0x8800
        }
    }

    pub fn get_lcdc_bg_tile_map_area(&self) -> (r: u16)
        ensures
            r == self.spec_bg_tile_map_area(),
    {
        if self.get_lcdc_flag(BG_TILE_MAP_MASK) {
            0x9C00
        } else {
            0x9800
        }
    }

    pub fn get_lcdc_obj_size(&self) -> (r: u8)
        ensures
            r == self.spec_obj_size(),
    {
        let obj_size_flag: bool = self.get_lcdc_flag(OBJ_SIZE_MASK);
        if obj_size_flag {
            16
        } else {
            8
        }
    }

    pub fn get_lcdc_flag(&self, mask: u8) -> (r: bool)
        ensures
            r == self.spec_lcdc_flag(mask),
    {
        (self.lcdc & mask) != 0
    }

    /// Returns the current mode of the PPU.
    pub fn get_lcds_mode(&self) -> (r: LCD_MODE)
        ensures
            r == self.spec_mode(),
    {
        let code: u8 = self.lcds % 4;
        if code == 0 {
            LCD_MODE::MODE_HBLANK
        } else if code == 1 {
            LCD_MODE::MODE_VBLANK
        } else if code == 2 {
            LCD_MODE::MODE_OAM
        } else {
            LCD_MODE::MODE_XFER
        }
    }

    /// Sets the current mode of the PPU.
    pub fn set_lcds_mode(&mut self, mode: LCD_MODE)
        ensures
            *final(self) == old(self).spec_set_mode(mode),
            final(self).spec_mode() == mode,
    {
        self.lcds = self.lcds - self.lcds % 4 + mode.code();
    }

    /// Returns the value of the LYC flag.
    pub fn get_lcds_lyc(&self) -> (r: bool)
        ensures
            r == self.spec_lyc(),
    {
        (self.lcds / 4) % 2 == 1
    }

    /// Sets the value of the LYC flag.
    pub fn set_lcds_lyc(&mut self, value: bool)
        ensures
            *final(self) == old(self).spec_set_lyc(value),
            final(self).spec_lyc() == value,
            final(self).spec_mode() == old(self).spec_mode(),
    {
        let cleared: u8 = self.lcds - ((self.lcds / 4) % 2) * 4;
        self.lcds = if value {
            cleared + 4
        } else {
            cleared
        };
    }

    /// Returns the value of an LCD status flag given its mask.
    pub fn get_lcds_flag(&self, mask: u8) -> (r: bool)
        ensures
            r == self.spec_lcds_flag(mask),
    {
        (self.lcds & mask) != 0
    }
}

} // verus!

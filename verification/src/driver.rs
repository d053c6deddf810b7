//! The driver's device-state machine.
//!
//! The driver owns the cached controller state: the current bit depth, the
//! currently addressed RAM rectangle and the bounded buffer of
//! not-yet-transmitted command bytes. Its operations decide which commands a
//! request actually needs, encode them, and hand back the exact byte
//! transfers the hardware shell must put on the wire in command mode; the
//! shell only toggles lines, waits, and transmits.

use vstd::prelude::*;

use crate::BitDepth;
use crate::Config;
use crate::DISPLAY_HEIGHT;
use crate::DISPLAY_WIDTH;
use crate::PixelOrder;
use crate::cmdbuf::CMD_BUF_CAPACITY;
use crate::cmdbuf::cmd_buf_bytes;
use crate::cmdbuf::cmd_buf_clear;
use crate::cmdbuf::cmd_buf_is_empty;
use crate::cmdbuf::cmd_buf_new;
use crate::cmdbuf::cmd_buf_to_vec;
use crate::command::Command;
use crate::command::lemma_encode_len;
use crate::geometry::Point;
use crate::geometry::Rect;
use crate::geometry::Size;

verus! {

/// The full panel in RAM coordinates.
pub open spec fn spec_full_panel() -> Rect {
    Rect {
        top_left: Point { x: 0, y: 0 },
        size: Size { width: DISPLAY_WIDTH, height: DISPLAY_HEIGHT },
    }
}

/// Builds the full-panel rectangle in RAM coordinates.
pub fn full_panel() -> (r: Rect)
    ensures
        r == spec_full_panel(),
{
    Rect {
        top_left: Point { x: 0, y: 0 },
        size: Size { width: DISPLAY_WIDTH, height: DISPLAY_HEIGHT },
    }
}

/// The logical display size under a configuration: the native panel size,
/// with width and height swapped when the pixel order is column-major.
pub open spec fn spec_logical_size(config: Config) -> Size {
    if config.pixel_order == PixelOrder::RowMajor {
        Size { width: DISPLAY_WIDTH, height: DISPLAY_HEIGHT }
    } else {
        Size { width: DISPLAY_HEIGHT, height: DISPLAY_WIDTH }
    }
}

/// The display RAM rectangle for a rectangle on the logical display:
/// identity for row-major pixel order, the transpose otherwise. The
/// controller's addressing axes stay fixed regardless of the pixel order;
/// only the mapping of logical axes onto them changes. Mirroring and flips
/// are controlled by the other configuration fields and do not affect
/// addressing.
pub open spec fn spec_to_ram(config: Config, area: Rect) -> Rect {
    if config.pixel_order == PixelOrder::RowMajor {
        area
    } else {
        Rect {
            top_left: Point { x: area.top_left.y, y: area.top_left.x },
            size: Size { width: area.size.height, height: area.size.width },
        }
    }
}

/// The rectangle is non-empty and lies entirely within the logical display
/// bounds of the configuration.
pub open spec fn spec_contains(config: Config, area: Rect) -> bool {
    &&& !area.is_empty()
    &&& 0 <= area.top_left.x
    &&& 0 <= area.top_left.y
    &&& area.top_left.x + area.size.width <= spec_logical_size(config).width
    &&& area.top_left.y + area.size.height <= spec_logical_size(config).height
}

/// Law: the logical-to-RAM mapping is an involution. Applying it twice with
/// the same configuration returns the original rectangle.
pub proof fn lemma_to_ram_involution(config: Config, area: Rect)
    ensures
        spec_to_ram(config, spec_to_ram(config, area)) == area,
{
}

/// Law: for an area within the logical display bounds, the RAM rectangle
/// lies within the physical panel, so its clamp-encoded coordinate bytes
/// are the coordinates themselves: the documented wrap-around of the
/// encoding cannot occur through a bounds-checked write.
pub proof fn lemma_in_bounds_ram_area(config: Config, area: Rect)
    requires
        spec_contains(config, area),
    ensures
        !spec_to_ram(config, area).is_empty(),
        0 <= spec_to_ram(config, area).top_left.x,
        0 <= spec_to_ram(config, area).top_left.y,
        spec_to_ram(config, area).right() < DISPLAY_WIDTH,
        spec_to_ram(config, area).bottom() < DISPLAY_HEIGHT,
{
}

/// The byte stream a list of command-mode transfers puts on the wire.
pub open spec fn spec_concat(transfers: Seq<Vec<u8>>) -> Seq<u8>
    decreases transfers.len(),
{
    if transfers.len() == 0 {
        Seq::<u8>::empty()
    } else {
        spec_concat(transfers.drop_last()) + transfers.last()@
    }
}

proof fn lemma_concat_push(transfers: Seq<Vec<u8>>, bytes: Vec<u8>)
    ensures
        spec_concat(transfers.push(bytes)) == spec_concat(transfers) + bytes@,
{
    assert(transfers.push(bytes).drop_last() =~= transfers);
}

/// The encodings of a sequence of commands, concatenated in order.
pub open spec fn spec_commands_bytes(commands: Seq<Command>) -> Seq<u8>
    decreases commands.len(),
{
    if commands.len() == 0 {
        Seq::<u8>::empty()
    } else {
        spec_commands_bytes(commands.drop_last()) + commands.last().spec_encode()
    }
}

proof fn lemma_commands_bytes_push(commands: Seq<Command>, cmd: Command)
    ensures
        spec_commands_bytes(commands.push(cmd)) == spec_commands_bytes(commands)
            + cmd.spec_encode(),
{
    assert(commands.push(cmd).drop_last() =~= commands);
}

proof fn lemma_commands_bytes_take_step(commands: Seq<Command>, i: int)
    requires
        0 <= i < commands.len(),
    ensures
        spec_commands_bytes(commands.take(i + 1)) == spec_commands_bytes(commands.take(i))
            + commands[i].spec_encode(),
{
    assert(commands.take(i + 1).drop_last() =~= commands.take(i));
    assert(commands.take(i + 1).last() == commands[i]);
}

/// The exact initialization byte stream for the given data mapping: remap
/// and color depth at sixteen bits per pixel, a conservative master current
/// (full scale oversaturates midtones), per-channel contrast defaults tuned
/// for color balance, a clear of the full panel, and display on.
pub open spec fn spec_init_bytes(config: Config) -> Seq<u8> {
    Command::RemapAndColorDepth(config, BitDepth::Sixteen).spec_encode()
        + Command::MasterCurrent(5).spec_encode() + Command::Contrast(0x80, 0x50, 0x80).spec_encode()
        + Command::ClearWindow(spec_full_panel()).spec_encode()
        + Command::DisplayOn(true).spec_encode()
}

/// The command bytes a pixel write must send before its data phase: a remap
/// command when the requested bit depth differs from the cached one, then
/// an addressing command when the requested area's RAM rectangle differs
/// from the cached one. A write that repeats both sends nothing.
pub open spec fn spec_write_commands(driver: Ssd1331, depth: BitDepth, area: Rect) -> Seq<u8> {
    let remap = if driver.depth() != depth {
        Command::RemapAndColorDepth(driver.config(), depth).spec_encode()
    } else {
        Seq::<u8>::empty()
    };
    let address = if driver.addressed() != spec_to_ram(driver.config(), area) {
        Command::AddressRectangle(spec_to_ram(driver.config(), area)).spec_encode()
    } else {
        Seq::<u8>::empty()
    };
    remap + address
}

/// Law: a write that repeats the cached bit depth and addresses the same
/// logical area needs no commands at all; only its data phase remains.
pub proof fn lemma_repeated_write_needs_no_commands(driver: Ssd1331, depth: BitDepth, area: Rect)
    requires
        driver.depth() == depth,
        driver.addressed() == spec_to_ram(driver.config(), area),
    ensures
        spec_write_commands(driver, depth, area) == Seq::<u8>::empty(),
{
    assert(spec_write_commands(driver, depth, area) =~= Seq::<u8>::empty());
}

/// The driver: cached device state and command planning.
pub struct Ssd1331 {
    data_mapping: Config,
    bit_depth: BitDepth,
    area: Rect,
    command_buf: heapless::Vec<u8, 16>,
}

impl Ssd1331 {
    /// The immutable orientation configuration.
    pub closed spec fn config(self) -> Config {
        self.data_mapping
    }

    /// The cached controller bit depth.
    pub closed spec fn depth(self) -> BitDepth {
        self.bit_depth
    }

    /// The cached addressed RAM rectangle.
    pub closed spec fn addressed(self) -> Rect {
        self.area
    }

    /// The not-yet-transmitted command bytes.
    pub closed spec fn pending(self) -> Seq<u8> {
        cmd_buf_bytes(self.command_buf)
    }

    /// Creates a driver instance for the given data mapping.
    ///
    /// The cached state is a placeholder until [`Self::init`] runs; the
    /// hardware shell initializes the display right after construction.
    pub fn new(data_mapping: Config) -> (driver: Self)
        ensures
            driver.config() == data_mapping,
            driver.depth() == BitDepth::Sixteen,
            driver.addressed() == (Rect {
                top_left: Point { x: 0, y: 0 },
                size: Size { width: 0, height: 0 },
            }),
            driver.pending() == Seq::<u8>::empty(),
    {
        Ssd1331 {
            data_mapping,
            bit_depth: BitDepth::Sixteen,
            area: Rect::zero(),
            command_buf: cmd_buf_new(),
        }
    }

    /// The logical display size under this driver's orientation.
    pub fn size(&self) -> (s: Size)
        ensures
            s == spec_logical_size(self.config()),
    {
        if self.data_mapping.pixel_order == PixelOrder::RowMajor {
            Size { width: DISPLAY_WIDTH, height: DISPLAY_HEIGHT }
        } else {
            Size { width: DISPLAY_HEIGHT, height: DISPLAY_WIDTH }
        }
    }

    /// True when no command bytes await transmission.
    pub fn no_pending_commands(&self) -> (empty: bool)
        ensures
            empty == (self.pending().len() == 0),
    {
        cmd_buf_is_empty(&self.command_buf)
    }

    /// Returns the display RAM rectangle for the given rectangle on the
    /// logical display.
    pub fn ram_area(&self, area: Rect) -> (ram: Rect)
        ensures
            ram == spec_to_ram(self.config(), area),
    {
        if self.data_mapping.pixel_order == PixelOrder::RowMajor {
            area
        } else {
            Rect {
                top_left: Point { x: area.top_left.y, y: area.top_left.x },
                size: Size { width: area.size.height, height: area.size.width },
            }
        }
    }

    /// Takes the buffered command bytes for transmission in command mode,
    /// leaving the buffer empty. The hardware shell transmits the returned
    /// bytes, if any, with the command/data select line low.
    pub fn flush_commands(&mut self) -> (bytes: Vec<u8>)
        ensures
            bytes@ == old(self).pending(),
            final(self).pending() == Seq::<u8>::empty(),
            final(self).config() == old(self).config(),
            final(self).depth() == old(self).depth(),
            final(self).addressed() == old(self).addressed(),
    {
        let bytes = cmd_buf_to_vec(&self.command_buf);
        cmd_buf_clear(&mut self.command_buf);
        bytes
    }

    /// Appends the given commands greedily. When one does not fit, the
    /// buffer's bytes are emitted as one transfer and the append is retried
    /// on the emptied buffer, where it must succeed: no single command
    /// exceeds the buffer's capacity. A last transfer drains whatever
    /// remains, so the returned transfers carry, in order, any bytes that
    /// were already buffered followed by every command's encoding.
    pub fn send_commands(&mut self, commands: &Vec<Command>) -> (transfers: Vec<Vec<u8>>)
        requires
            forall|i: int| 0 <= i < commands@.len() ==> (#[trigger] commands@[i]).wf(),
            old(self).pending().len() <= CMD_BUF_CAPACITY,
        ensures
            final(self).config() == old(self).config(),
            final(self).depth() == old(self).depth(),
            final(self).addressed() == old(self).addressed(),
            final(self).pending() == Seq::<u8>::empty(),
            spec_concat(transfers@) == old(self).pending() + spec_commands_bytes(commands@),
            forall|i: int|
                0 <= i < transfers@.len() ==> 1 <= (#[trigger] transfers@[i])@.len()
                    <= CMD_BUF_CAPACITY,
    {
        let ghost orig = *self;
        let mut transfers: Vec<Vec<u8>> = Vec::new();
        let mut idx: usize = 0;
        proof {
            assert(commands@.take(0) =~= Seq::<Command>::empty());
            assert(spec_concat(transfers@) + self.pending() =~= orig.pending());
        }
        while idx < commands.len()
            invariant
                idx <= commands@.len(),
                forall|i: int| 0 <= i < commands@.len() ==> (#[trigger] commands@[i]).wf(),
                self.config() == orig.config(),
                self.depth() == orig.depth(),
                self.addressed() == orig.addressed(),
                self.pending().len() <= CMD_BUF_CAPACITY,
                spec_concat(transfers@) + self.pending() == orig.pending()
                    + spec_commands_bytes(commands@.take(idx as int)),
                forall|i: int|
                    0 <= i < transfers@.len() ==> 1 <= (#[trigger] transfers@[i])@.len()
                        <= CMD_BUF_CAPACITY,
            decreases commands@.len() - idx,
        {
            let ghost transfers_before = transfers@;
            let ghost pending_before = self.pending();
            let cmd = commands[idx];
            let fits = cmd.push(&mut self.command_buf);
            if !fits {
                proof {
                    lemma_encode_len(cmd);
                }
                let drained = self.flush_commands();
                transfers.push(drained);
                proof {
                    lemma_concat_push(transfers_before, drained);
                }
                let refit = cmd.push(&mut self.command_buf);
                assert(refit);
            }
            idx = idx + 1;
            proof {
                lemma_commands_bytes_take_step(commands@, idx as int - 1);
                let enc = cmd.spec_encode();
                let done = spec_commands_bytes(commands@.take(idx as int - 1));
                if fits {
                    assert(spec_concat(transfers@) + self.pending() =~= (spec_concat(
                        transfers_before,
                    ) + pending_before) + enc);
                } else {
                    assert(spec_concat(transfers@) == spec_concat(transfers_before)
                        + pending_before);
                    assert(spec_concat(transfers@) + self.pending() =~= (spec_concat(
                        transfers_before,
                    ) + pending_before) + enc);
                }
                assert((orig.pending() + done) + enc =~= orig.pending() + (done + enc));
                assert(spec_concat(transfers@) + self.pending() == orig.pending()
                    + spec_commands_bytes(commands@.take(idx as int)));
            }
        }
        proof {
            assert(commands@.take(idx as int) =~= commands@);
        }
        let ghost transfers_before = transfers@;
        let ghost pending_before = self.pending();
        let drained = self.flush_commands();
        if drained.len() > 0 {
            transfers.push(drained);
            proof {
                lemma_concat_push(transfers_before, drained);
            }
        } else {
            proof {
                assert(pending_before =~= Seq::<u8>::empty());
            }
        }
        proof {
            assert(spec_concat(transfers@) =~= orig.pending() + spec_commands_bytes(commands@));
        }
        transfers
    }

    /// Resets the cached device state to the initialization defaults —
    /// sixteen bits per pixel, the full panel addressed, an empty command
    /// buffer — and returns, in order, the command-mode transfers of the
    /// initialization sequence described by [`spec_init_bytes`].
    ///
    /// The hardware shell must hard-reset the display (reset line low,
    /// wait, high, wait) before transmitting these, and wait once more
    /// afterwards: the clear-window command needs time to write RAM, and
    /// the bus carries no acknowledgment.
    pub fn init(&mut self) -> (transfers: Vec<Vec<u8>>)
        ensures
            final(self).config() == old(self).config(),
            final(self).depth() == BitDepth::Sixteen,
            final(self).addressed() == spec_full_panel(),
            final(self).pending() == Seq::<u8>::empty(),
            spec_concat(transfers@) == spec_init_bytes(old(self).config()),
            forall|i: int|
                0 <= i < transfers@.len() ==> 1 <= (#[trigger] transfers@[i])@.len()
                    <= CMD_BUF_CAPACITY,
    {
        let ghost orig = *self;
        cmd_buf_clear(&mut self.command_buf);
        self.area = full_panel();
        self.bit_depth = BitDepth::Sixteen;
        let mut commands: Vec<Command> = Vec::new();
        commands.push(Command::RemapAndColorDepth(self.data_mapping, BitDepth::Sixteen));
        commands.push(Command::MasterCurrent(5));
        commands.push(Command::Contrast(0x80, 0x50, 0x80));
        commands.push(Command::ClearWindow(self.area));
        commands.push(Command::DisplayOn(true));
        proof {
            let c1 = Command::RemapAndColorDepth(orig.config(), BitDepth::Sixteen);
            let c2 = Command::MasterCurrent(5);
            let c3 = Command::Contrast(0x80, 0x50, 0x80);
            let c4 = Command::ClearWindow(spec_full_panel());
            let c5 = Command::DisplayOn(true);
            let s0 = Seq::<Command>::empty();
            assert(commands@ =~= s0.push(c1).push(c2).push(c3).push(c4).push(c5));
            lemma_commands_bytes_push(s0, c1);
            lemma_commands_bytes_push(s0.push(c1), c2);
            lemma_commands_bytes_push(s0.push(c1).push(c2), c3);
            lemma_commands_bytes_push(s0.push(c1).push(c2).push(c3), c4);
            lemma_commands_bytes_push(s0.push(c1).push(c2).push(c3).push(c4), c5);
            assert(spec_commands_bytes(commands@) =~= spec_init_bytes(orig.config()));
        }
        let transfers = self.send_commands(&commands);
        proof {
            assert(spec_concat(transfers@) =~= spec_init_bytes(orig.config()));
        }
        transfers
    }

    /// Plans a pixel write to `area`, in logical display coordinates, with
    /// pixel data of the given bit depth: updates the cached state and
    /// returns the command bytes the hardware shell must transmit in
    /// command mode before streaming the pixel bytes in data mode. A write
    /// that repeats the cached depth and area needs no command bytes at
    /// all.
    ///
    /// The caller owns the data phase: the driver neither sees the pixel
    /// bytes nor validates their length; data longer than the addressed
    /// rectangle wraps around the area's start inside the controller.
    pub fn write_pixels(&mut self, bit_depth: BitDepth, area: Rect) -> (cmds: Vec<u8>)
        requires
            old(self).pending().len() == 0,
            spec_contains(old(self).config(), area),
        ensures
            final(self).config() == old(self).config(),
            final(self).depth() == bit_depth,
            final(self).addressed() == spec_to_ram(old(self).config(), area),
            final(self).pending() == Seq::<u8>::empty(),
            cmds@ == spec_write_commands(*old(self), bit_depth, area),
    {
        let ghost orig = *self;
        if self.bit_depth != bit_depth {
            self.bit_depth = bit_depth;
            let fits = Command::RemapAndColorDepth(self.data_mapping, bit_depth).push(
                &mut self.command_buf,
            );
            assert(fits);
        }
        let ram = self.ram_area(area);
        if self.area != ram {
            self.area = ram;
            let fits = Command::AddressRectangle(ram).push(&mut self.command_buf);
            assert(fits);
        }
        let cmds = self.flush_commands();
        proof {
            assert(cmds@ =~= spec_write_commands(orig, bit_depth, area));
        }
        cmds
    }
}

} // verus!

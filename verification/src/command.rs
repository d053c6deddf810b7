//! Commands for the display controller and their exact wire encoding.
//!
//! Every command serializes to a fixed opcode-plus-arguments byte sequence;
//! [`Command::spec_encode`] is the reference encoding and [`Command::push`]
//! appends it to the bounded command buffer, reporting whether it fit.

use vstd::prelude::*;

use crate::BitDepth;
use crate::Config;
use crate::cmdbuf::CMD_BUF_CAPACITY;
use crate::cmdbuf::cmd_buf_bytes;
use crate::cmdbuf::cmd_buf_extend;
use crate::geometry::Point;
use crate::geometry::Rect;
use crate::rgb565::Rgb565;

verus! {

/// Coordinate encoding: negative values clamp to zero, values above 255
/// wrap through an 8-bit mask. Callers are expected to keep coordinates
/// within the controller's 8-bit addressable range; the wrap-around is a
/// documented hazard, not validated further.
pub open spec fn spec_clamp(c: int) -> u8 {
    if c < 0 {
        0
    } else {
        (c % 256) as u8
    }
}

/// Encodes one coordinate as its clamped byte.
pub fn clamp(c: i32) -> (byte: u8)
    ensures
        byte == spec_clamp(c as int),
{
    if c < 0 {
        0
    } else {
        (c % 256) as u8
    }
}

/// Commands understood by the display controller.
#[derive(Clone, Copy, Debug)]
pub enum Command {
    /// Set master current, 0..15 corresponding to 1/16 - 16/16 attenuation.
    MasterCurrent(u8),
    /// Set (r, g, b) contrast. Higher number is higher contrast.
    Contrast(u8, u8, u8),
    /// Turn display on or off.
    DisplayOn(bool),
    /// Set mapping between the incoming data and the display pixels.
    RemapAndColorDepth(Config, BitDepth),
    /// Fill the given window of RAM with zeros. The rectangle is in RAM
    /// coordinates, with an inclusive bottom-right corner. The controller
    /// needs time to write to the RAM, so a delay is due after this command.
    ClearWindow(Rect),
    /// Address a non-empty rectangle of RAM: the column range first, then
    /// the row range.
    AddressRectangle(Rect),
    /// Draw a line of the given color.
    DrawLine(Point, Point, Rgb565),
    /// Draw a rectangle with the given border and (when fill mode is
    /// enabled) interior colors. The rectangle must be non-empty.
    DrawRectangle(Rect, Rgb565, Rgb565),
    /// Set fill enabled or disabled for the draw-rectangle command.
    SetFillEnabled(bool),
    /// No-op.
    NoOp,
}

impl Command {
    /// Commands that address a rectangle need it non-empty (its inclusive
    /// bottom-right corner must exist) and computable in 32-bit arithmetic.
    pub open spec fn wf(self) -> bool {
        match self {
            Command::ClearWindow(r) => !r.is_empty() && r.corner_in_range(),
            Command::AddressRectangle(r) => !r.is_empty() && r.corner_in_range(),
            Command::DrawRectangle(r, _, _) => !r.is_empty() && r.corner_in_range(),
            _ => true,
        }
    }

    /// The exact byte sequence this command puts on the wire.
    pub open spec fn spec_encode(self) -> Seq<u8> {
        match self {
            Command::MasterCurrent(level) => seq![
                0x87u8,
                if level > 15 {
                    15u8
                } else {
                    level
                },
            ],
            Command::Contrast(r, g, b) => seq![0x81u8, r, 0x82u8, g, 0x83u8, b],
            Command::DisplayOn(on) => seq![
                if on {
                    0xAFu8
                } else {
                    0xAEu8
                },
            ],
            Command::RemapAndColorDepth(config, depth) => seq![0xA0u8, config.spec_flags(depth)],
            Command::ClearWindow(r) => seq![
                0x25u8,
                spec_clamp(r.top_left.x as int),
                spec_clamp(r.top_left.y as int),
                spec_clamp(r.right()),
                spec_clamp(r.bottom()),
            ],
            Command::AddressRectangle(r) => seq![
                0x15u8,
                spec_clamp(r.top_left.x as int),
                spec_clamp(r.right()),
                0x75u8,
                spec_clamp(r.top_left.y as int),
                spec_clamp(r.bottom()),
            ],
            Command::DrawLine(a, b, color) => seq![
                0x21u8,
                spec_clamp(a.x as int),
                spec_clamp(a.y as int),
                spec_clamp(b.x as int),
                spec_clamp(b.y as int),
                color.spec_r(),
                color.spec_g(),
                color.spec_b(),
            ],
            Command::DrawRectangle(r, border, fill) => seq![
                0x22u8,
                spec_clamp(r.top_left.x as int),
                spec_clamp(r.top_left.y as int),
                spec_clamp(r.right()),
                spec_clamp(r.bottom()),
                border.spec_r(),
                border.spec_g(),
                border.spec_b(),
                fill.spec_r(),
                fill.spec_g(),
                fill.spec_b(),
            ],
            Command::SetFillEnabled(enabled) => seq![
                0x26u8,
                if enabled {
                    1u8
                } else {
                    0u8
                },
            ],
            Command::NoOp => seq![0xBCu8],
        }
    }

    /// Serializes this command to its opcode and argument bytes.
    pub fn encode(&self) -> (bytes: Vec<u8>)
        requires
            self.wf(),
        ensures
            bytes@ == self.spec_encode(),
    {
        let mut bytes: Vec<u8> = Vec::new();
        match *self {
            Command::MasterCurrent(level) => {
                bytes.push(0x87);
                bytes.push(if level > 15 { 15 } else { level });
            },
            Command::Contrast(r, g, b) => {
                bytes.push(0x81);
                bytes.push(r);
                bytes.push(0x82);
                bytes.push(g);
                bytes.push(0x83);
                bytes.push(b);
            },
            Command::DisplayOn(on) => {
                bytes.push(if on { 0xAF } else { 0xAE });
            },
            Command::RemapAndColorDepth(config, depth) => {
                bytes.push(0xA0);
                bytes.push(config.flags(depth));
            },
            Command::ClearWindow(r) => {
                let corner = r.bottom_right().unwrap();
                bytes.push(0x25);
                bytes.push(clamp(r.top_left.x));
                bytes.push(clamp(r.top_left.y));
                bytes.push(clamp(corner.x));
                bytes.push(clamp(corner.y));
            },
            Command::AddressRectangle(r) => {
                let corner = r.bottom_right().unwrap();
                bytes.push(0x15);
                bytes.push(clamp(r.top_left.x));
                bytes.push(clamp(corner.x));
                bytes.push(0x75);
                bytes.push(clamp(r.top_left.y));
                bytes.push(clamp(corner.y));
            },
            Command::DrawLine(a, b, color) => {
                bytes.push(0x21);
                bytes.push(clamp(a.x));
                bytes.push(clamp(a.y));
                bytes.push(clamp(b.x));
                bytes.push(clamp(b.y));
                bytes.push(color.r());
                bytes.push(color.g());
                bytes.push(color.b());
            },
            Command::DrawRectangle(r, border, fill) => {
                let corner = r.bottom_right().unwrap();
                bytes.push(0x22);
                bytes.push(clamp(r.top_left.x));
                bytes.push(clamp(r.top_left.y));
                bytes.push(clamp(corner.x));
                bytes.push(clamp(corner.y));
                bytes.push(border.r());
                bytes.push(border.g());
                bytes.push(border.b());
                bytes.push(fill.r());
                bytes.push(fill.g());
                bytes.push(fill.b());
            },
            Command::SetFillEnabled(enabled) => {
                bytes.push(0x26);
                bytes.push(if enabled { 1 } else { 0 });
            },
            Command::NoOp => {
                bytes.push(0xBC);
            },
        }
        assert(bytes@ =~= self.spec_encode());
        bytes
    }

    /// Appends this command's encoding to the bounded command buffer when it
    /// fits, and leaves the buffer untouched otherwise.
    pub fn push(&self, buf: &mut heapless::Vec<u8, 16>) -> (fits: bool)
        requires
            self.wf(),
        ensures
            fits == (cmd_buf_bytes(*old(buf)).len() + self.spec_encode().len()
                <= CMD_BUF_CAPACITY),
            fits ==> cmd_buf_bytes(*final(buf)) == cmd_buf_bytes(*old(buf)) + self.spec_encode(),
            !fits ==> cmd_buf_bytes(*final(buf)) == cmd_buf_bytes(*old(buf)),
            cmd_buf_bytes(*old(buf)).len() <= CMD_BUF_CAPACITY ==> cmd_buf_bytes(
                *final(buf),
            ).len() <= CMD_BUF_CAPACITY,
    {
        let bytes = self.encode();
        cmd_buf_extend(buf, bytes.as_slice())
    }
}

/// Every command encodes to at most eleven bytes.
pub proof fn lemma_encode_len(cmd: Command)
    ensures
        1 <= cmd.spec_encode().len() <= 11,
{
}

/// Law: no single command's encoding exceeds the command buffer's capacity,
/// so an append that fails for want of room is guaranteed to succeed once a
/// flush has emptied the buffer.
pub proof fn lemma_flush_makes_room(cmd: Command)
    ensures
        cmd.spec_encode().len() <= CMD_BUF_CAPACITY,
{
    lemma_encode_len(cmd);
}

} // verus!

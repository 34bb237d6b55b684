//! The wire protocol: commands, and the two frame formats that carry a
//! serialized command between the vehicle and the ground station.
//!
//! Live frame: `[0xFE][len][payload][sum-hi][sum-lo][0xFF]`, checked with
//! CRC-16/CCITT-FALSE reduced modulo 511 and each byte then modulo 253.
//! Log frame (64 bytes): `[0xFE][len][payload padded to 59][0][sum][0xFF]`,
//! checked with the byte sum of the padded payload modulo 256.

use vstd::prelude::*;
use crc_any::CRCu16;
use crate::fx::Fx;

verus! {

pub const START_BYTE: u8 = 0xFE;
pub const END_BYTE: u8 = 0xFF;

/// Size of one log frame, and of one flash log slot.
pub const MESSAGE_LEN: usize = 64;

/// Payload bytes in a log frame.
pub const LOG_PAYLOAD_LEN: usize = 59;

/// Flight modes.
#[derive(Clone, Copy, Debug, PartialEq, Eq, Structural)]
pub enum Mode {
    Safe,
    Panic,
    Manual,
    Calibration,
    YawControlled,
    FullControl,
    Raw,
    Height,
    LogOut,
}

/// Directives exchanged over the wire. Fixed-point quantities travel as raw
/// bit patterns; the floating-point fields of a datalog record travel as
/// their IEEE-754 bit patterns.
#[derive(Clone, Debug, PartialEq, Eq)]
#[allow(inconsistent_fields)]
pub enum Command {
    EXIT,
    KeepAlive,
    ModeChange { mode: Mode },
    YawPSet { num: i16 },
    YawDSet { num: i16 },
    PitchPSet { num: i16 },
    PitchDSet { num: i16 },
    RollPSet { num: i16 },
    RollDSet { num: i16 },
    Height { num: i32 },
    Time { num: u128 },
    ThrottleSet { num: i16 },
    YawBack { num: i32 },
    PitchBack { num: i32 },
    RollBack { num: i32 },
    ThrottleBack { num: i16 },
    YawSet { num: i32 },
    PitchSet { num: i32 },
    RollSet { num: i32 },
    Trueyaw { num: i32 },
    Truepitch { num: i32 },
    Trueroll { num: i32 },
    Speed { num: i32 },
    Datalog {
        mode: Mode,
        ypr: [u32; 3],
        raw_ypr: [u32; 3],
        motor: [u16; 4],
        time: u128,
        raw_speed: u32,
    },
    Motor { motor1: u16, motor2: u16, motor3: u16, motor4: u16 },
    Motor1 { num: u16 },
    Motor2 { num: u16 },
    Motor3 { num: u16 },
    Motor4 { num: u16 },
    BatteryCheck { num: u16 },
}

/// Joystick references as sent over the wire: raw fixed-point angles and
/// the throttle.
#[derive(Clone, Copy, Debug, PartialEq, Eq)]
pub struct GyroValue {
    pub yaw: i32,
    pub pitch: i32,
    pub roll: i32,
    pub throttle: i16,
}

impl GyroValue {
    /// Clears the three angles; the throttle stays.
    pub fn initial(&mut self)
        ensures
            final(self).yaw == 0 && final(self).pitch == 0 && final(self).roll == 0,
            final(self).throttle == old(self).throttle,
    {
        self.yaw = 0;
        self.pitch = 0;
        self.roll = 0;
    }
}

/// A telemetry snapshot: attitude, time since boot in milliseconds, and
/// the yaw-rate error.
#[derive(Clone, Copy, Debug, PartialEq, Eq)]
pub struct Datalog {
    pub ypr: [Fx; 3],
    pub time: u128,
    pub yaw_speed_error: Fx,
}

/// The CRC-16/CCITT-FALSE of a byte sequence.
pub uninterp spec fn crc16_of(data: Seq<u8>) -> u16;

/// Relies on `crc_any::CRCu16::crc16ccitt_false`, `digest` and `get_crc`:
/// the CRC-16/CCITT-FALSE of the bytes, a function of the bytes alone.
#[verifier::external_body]
fn crc16(data: &Vec<u8>) -> (r: u16)
    ensures
        r == crc16_of(data@),
{
    let mut crc = CRCu16::crc16ccitt_false();
    crc.digest(data.as_slice());
    crc.get_crc()
}

/// The two checksum bytes of a live frame for `payload`.
pub open spec fn live_checksum(payload: Seq<u8>) -> (u8, u8) {
    let c = crc16_of(payload) as int % 511;
    (((c / 256) % 253) as u8, ((c % 256) % 253) as u8)
}

/// The live frame that carries `payload`.
pub open spec fn live_frame(payload: Seq<u8>) -> Seq<u8> {
    let (hi, lo) = live_checksum(payload);
    seq![START_BYTE, payload.len() as u8] + payload + seq![hi, lo, END_BYTE]
}

/// What decoding `buf` as a live frame yields: its payload when the markers,
/// the declared length and the checksum all agree.
pub open spec fn live_payload(buf: Seq<u8>) -> Option<Seq<u8>> {
    let n = buf.len();
    if n >= 5 && buf[0] == START_BYTE && buf[n - 1] == END_BYTE {
        let payload = buf.subrange(2, n - 3);
        if buf[1] as int == n - 5 && (buf[n - 3], buf[n - 2]) == live_checksum(payload) {
            Some(payload)
        } else {
            None
        }
    } else {
        None
    }
}

/// Sum of the bytes.
pub open spec fn byte_sum(s: Seq<u8>) -> int
    decreases s.len(),
{
    if s.len() == 0 {
        0
    } else {
        byte_sum(s.drop_last()) + s.last()
    }
}

/// `payload` cut or zero-padded to the payload size of a log frame.
pub open spec fn log_padded(payload: Seq<u8>) -> Seq<u8> {
    if payload.len() >= LOG_PAYLOAD_LEN {
        payload.subrange(0, LOG_PAYLOAD_LEN as int)
    } else {
        payload + Seq::new((LOG_PAYLOAD_LEN - payload.len()) as nat, |i: int| 0u8)
    }
}

/// The log frame that carries `payload`.
pub open spec fn log_frame(payload: Seq<u8>) -> Seq<u8> {
    let padded = log_padded(payload);
    seq![START_BYTE, payload.len() as u8] + padded + seq![
        0u8,
        (byte_sum(padded) % 256) as u8,
        END_BYTE,
    ]
}

/// What decoding `buf` as a log frame yields: the declared number of payload
/// bytes, when the markers agree, those bytes end before the checksum, and
/// the sum of all padded payload bytes matches the checksum.
pub open spec fn log_payload(buf: Seq<u8>) -> Option<Seq<u8>> {
    let n = buf.len();
    if n >= 5 && buf[0] == START_BYTE && buf[n - 1] == END_BYTE && 2 + buf[1] <= n - 3 {
        let payload = buf.subrange(2, 2 + buf[1]);
        if buf[n - 3] == 0 && buf[n - 2] as int == byte_sum(buf.subrange(2, n - 3)) % 256 {
            Some(payload)
        } else {
            None
        }
    } else {
        None
    }
}

/// A serialized command between its start and end markers.
pub struct Message {
    pub start_byte: u8,
    pub command: Vec<u8>,
    pub end_byte: u8,
}

impl Message {
    pub open spec fn payload(&self) -> Seq<u8> {
        self.command@
    }

    pub open spec fn wf(&self) -> bool {
        self.start_byte == START_BYTE && self.end_byte == END_BYTE
    }

    /// Wraps an already serialized command.
    pub fn new(command: Vec<u8>) -> (r: Message)
        ensures
            r.wf(),
            r.payload() == command@,
    {
        Message { start_byte: START_BYTE, command, end_byte: END_BYTE }
    }

    /// The live frame of the message.
    pub fn build_message(&mut self) -> (r: Vec<u8>)
        requires
            old(self).wf(),
            old(self).payload().len() <= 255,
        ensures
            *final(self) == *old(self),
            r@ == live_frame(old(self).payload()),
    {
        let len = self.command.len() as u8;
        let temp = crc16(&self.command);
        let check = temp % 511;
        let t1 = ((check / 256) as u8) % 253;
        let t2 = ((check % 256) as u8) % 253;
        let mut buffer: Vec<u8> = Vec::new();
        buffer.push(self.start_byte);
        buffer.push(len);
        let mut i: usize = 0;
        while i < self.command.len()
            invariant
                0 <= i <= self.command.len(),
                buffer@ == seq![START_BYTE, len] + self.command@.subrange(0, i as int),
            decreases self.command.len() - i,
        {
            buffer.push(self.command[i]);
            i = i + 1;
            proof {
                assert(self.command@.subrange(0, i as int) == self.command@.subrange(0, i - 1)
                    .push(self.command@[i - 1]));
            }
        }
        buffer.push(t1);
        buffer.push(t2);
        buffer.push(self.end_byte);
        proof {
            assert(self.command@.subrange(0, self.command@.len() as int) == self.command@);
            assert(buffer@ == live_frame(self.command@));
        }
        buffer
    }

    /// Decodes a live frame into its payload; `None` for anything malformed.
    pub fn get_message(received_message: &[u8]) -> (r: Option<Vec<u8>>)
        ensures
            r matches Some(p) ==> live_payload(received_message@) == Some(p@),
            r is None ==> live_payload(received_message@) is None,
    {
        let length = received_message.len();
        if length >= 5 && received_message[0] == START_BYTE && received_message[length - 1]
            == END_BYTE {
            let received_command = copy_range(received_message, 2, length - 3);
            let check = crc16(&received_command) % 511;
            let v0 = ((check / 256) as u8) % 253;
            let v1 = ((check % 256) as u8) % 253;
            if received_message[1] as usize == length - 5 && received_message[length - 3] == v0
                && received_message[length - 2] == v1 {
                return Some(received_command);
            }
        }
        None
    }

    /// The 64-byte log frame of the message.
    pub fn build_message_log(&mut self) -> (r: Vec<u8>)
        requires
            old(self).wf(),
            old(self).payload().len() <= 255,
        ensures
            *final(self) == *old(self),
            r@ == log_frame(old(self).payload()),
            r@.len() == MESSAGE_LEN,
    {
        let mes_len = self.command.len() as u8;
        let mut padded: Vec<u8> = Vec::new();
        let mut i: usize = 0;
        while i < LOG_PAYLOAD_LEN
            invariant
                0 <= i <= LOG_PAYLOAD_LEN,
                padded@ == log_padded(self.command@).subrange(0, i as int),
            decreases LOG_PAYLOAD_LEN - i,
        {
            let b = if i < self.command.len() { self.command[i] } else { 0u8 };
            padded.push(b);
            i = i + 1;
            proof {
                assert(padded@ == log_padded(self.command@).subrange(0, i as int));
            }
        }
        proof {
            assert(log_padded(self.command@).subrange(0, LOG_PAYLOAD_LEN as int) == log_padded(
                self.command@,
            ));
        }
        let temp = sum_bytes(&padded);
        let mut buffer: Vec<u8> = Vec::new();
        buffer.push(self.start_byte);
        buffer.push(mes_len);
        let mut j: usize = 0;
        while j < padded.len()
            invariant
                0 <= j <= padded.len(),
                padded@.len() == LOG_PAYLOAD_LEN,
                buffer@ == seq![START_BYTE, mes_len] + padded@.subrange(0, j as int),
            decreases padded.len() - j,
        {
            buffer.push(padded[j]);
            j = j + 1;
            proof {
                assert(padded@.subrange(0, j as int) == padded@.subrange(0, j - 1).push(
                    padded@[j - 1],
                ));
            }
        }
        buffer.push(0u8);
        buffer.push((temp % 256) as u8);
        buffer.push(self.end_byte);
        proof {
            assert(padded@.subrange(0, padded@.len() as int) == padded@);
            assert(buffer@ == log_frame(self.command@));
        }
        buffer
    }

    /// Decodes a log frame into its payload; `None` for anything malformed.
    pub fn get_message_log(received_message: &[u8]) -> (r: Option<Vec<u8>>)
        ensures
            r matches Some(p) ==> log_payload(received_message@) == Some(p@),
            r is None ==> log_payload(received_message@) is None,
    {
        let length = received_message.len();
        if length >= 5 && received_message[0] == START_BYTE && received_message[length - 1]
            == END_BYTE && 2 + (received_message[1] as usize) <= length - 3 {
            let received_command = copy_range(
                received_message,
                2,
                2 + received_message[1] as usize,
            );
            let sum = sum_mod_256(received_message, 2, length - 3);
            if received_message[length - 3] == 0 && received_message[length - 2] as u32 == sum {
                return Some(received_command);
            }
        }
        None
    }
}

/// The bytes of `buf` from `lo` up to `hi`.
fn copy_range(buf: &[u8], lo: usize, hi: usize) -> (r: Vec<u8>)
    requires
        lo <= hi <= buf@.len(),
    ensures
        r@ == buf@.subrange(lo as int, hi as int),
{
    let mut out: Vec<u8> = Vec::new();
    let mut i = lo;
    while i < hi
        invariant
            lo <= i <= hi,
            hi <= buf@.len(),
            out@ == buf@.subrange(lo as int, i as int),
        decreases hi - i,
    {
        out.push(buf[i]);
        i = i + 1;
        proof {
            assert(out@ == buf@.subrange(lo as int, i as int));
        }
    }
    out
}

/// Sum of the bytes of `s` from `lo` up to `hi`, modulo 256.
fn sum_mod_256(s: &[u8], lo: usize, hi: usize) -> (r: u32)
    requires
        lo <= hi <= s@.len(),
    ensures
        r == byte_sum(s@.subrange(lo as int, hi as int)) % 256,
{
    let mut total: u32 = 0;
    let mut i: usize = lo;
    while i < hi
        invariant
            lo <= i <= hi <= s@.len(),
            total == byte_sum(s@.subrange(lo as int, i as int)) % 256,
        decreases hi - i,
    {
        proof {
            let prefix = s@.subrange(lo as int, i as int);
            assert(s@.subrange(lo as int, i + 1).drop_last() == prefix);
            assert(byte_sum(s@.subrange(lo as int, i + 1)) == byte_sum(prefix) + s@[i as int]);
            vstd::arithmetic::div_mod::lemma_add_mod_noop(byte_sum(prefix), s@[i as int] as int, 256);
            vstd::arithmetic::div_mod::lemma_small_mod(s@[i as int] as nat, 256);
        }
        total = (total + s[i] as u32) % 256;
        i = i + 1;
    }
    total
}

/// Sum of at most 255 bytes.
fn sum_bytes(s: &Vec<u8>) -> (r: u32)
    requires
        s@.len() <= 255,
    ensures
        r == byte_sum(s@),
{
    let mut total: u32 = 0;
    let mut i: usize = 0;
    while i < s.len()
        invariant
            0 <= i <= s@.len() <= 255,
            total == byte_sum(s@.subrange(0, i as int)),
            total <= 255 * i,
        decreases s.len() - i,
    {
        proof {
            assert(s@.subrange(0, i + 1).drop_last() == s@.subrange(0, i as int));
        }
        total = total + s[i] as u32;
        i = i + 1;
    }
    proof {
        assert(s@.subrange(0, s@.len() as int) == s@);
    }
    total
}

/// The live frame of an already serialized command.
pub fn serialize_message(command: Vec<u8>) -> (r: Vec<u8>)
    requires
        command@.len() <= 255,
    ensures
        r@ == live_frame(command@),
{
    let mut mes = Message::new(command);
    mes.build_message()
}

/// The log frame of an already serialized command.
pub fn serialize_message_log(command: Vec<u8>) -> (r: Vec<u8>)
    requires
        command@.len() <= 255,
    ensures
        r@ == log_frame(command@),
{
    let mut mes = Message::new(command);
    mes.build_message_log()
}

/// The live frames of all commands, one after another.
pub open spec fn live_frames(commands: Seq<Vec<u8>>) -> Seq<u8>
    decreases commands.len(),
{
    if commands.len() == 0 {
        Seq::empty()
    } else {
        live_frames(commands.drop_last()) + live_frame(commands.last()@)
    }
}

/// Concatenates the live frames of several serialized commands.
pub fn serialize_messages(commands: Vec<Vec<u8>>) -> (r: Vec<u8>)
    requires
        forall|k: int| 0 <= k < commands@.len() ==> (#[trigger] commands@[k])@.len() <= 255,
    ensures
        r@ == live_frames(commands@),
{
    let mut temp: Vec<u8> = Vec::new();
    let mut i: usize = 0;
    while i < commands.len()
        invariant
            0 <= i <= commands@.len(),
            forall|k: int| 0 <= k < commands@.len() ==> (#[trigger] commands@[k])@.len() <= 255,
            temp@ == live_frames(commands@.subrange(0, i as int)),
        decreases commands.len() - i,
    {
        let frame = serialize_message(commands[i].clone());
        let mut j: usize = 0;
        let ghost before = temp@;
        while j < frame.len()
            invariant
                0 <= j <= frame@.len(),
                temp@ == before + frame@.subrange(0, j as int),
            decreases frame.len() - j,
        {
            temp.push(frame[j]);
            j = j + 1;
            proof {
                assert(temp@ == before + frame@.subrange(0, j as int));
            }
        }
        proof {
            assert(frame@.subrange(0, frame@.len() as int) == frame@);
            assert(commands@.subrange(0, i + 1).drop_last() == commands@.subrange(0, i as int));
        }
        i = i + 1;
    }
    proof {
        assert(commands@.subrange(0, commands@.len() as int) == commands@);
    }
    temp
}

/// Decoding the live frame of a payload gives back that payload.
pub proof fn lemma_live_round_trip(payload: Seq<u8>)
    requires
        payload.len() <= 255,
    ensures
        live_payload(live_frame(payload)) == Some(payload),
{
    let f = live_frame(payload);
    assert(f.subrange(2, f.len() - 3) == payload);
}

/// Decoding the log frame of a payload that fits gives back that payload.
pub proof fn lemma_log_round_trip(payload: Seq<u8>)
    requires
        payload.len() <= LOG_PAYLOAD_LEN,
    ensures
        log_payload(log_frame(payload)) == Some(payload),
        log_frame(payload).len() == MESSAGE_LEN,
{
    let f = log_frame(payload);
    let padded = log_padded(payload);
    assert(f.len() == 64);
    assert(f.subrange(2, 61) == padded);
    assert(f[1] as int == payload.len());
    assert(f[61] == 0u8);
    assert(f[62] as int == byte_sum(padded) % 256);
    assert(f.subrange(2, 2 + payload.len() as int) == payload);
}

} // verus!

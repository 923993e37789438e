use vstd::prelude::*;
use crate::bits::bool_u8;
use crate::bytes::{matches_at, occurs_at};
use crate::consts::CLOCK_FREQ;
use crate::io::gamepak::gpio::GpioDevice;

verus! {

/// Both nibbles of a binary-coded decimal byte are below ten.
pub open spec fn bcd_ok(v: u8) -> bool {
    v & 0xF < 0xA && v >> 4u8 < 0xA
}

/// The number that a binary-coded decimal byte stands for.
pub open spec fn bcd_num(v: u8) -> int {
    (v / 16) as int * 10 + (v % 16) as int
}

/// Binary-coded decimal form of `v` (below 100 for a valid result).
pub open spec fn to_bcd(v: u8) -> u8 {
    (((v / 10) as u8) << 4u8) | ((v % 10) as u8)
}

proof fn lemma_nibbles(v: u8)
    by (bit_vector)
    ensures
        v & 0xFu8 == v % 16,
        v >> 4u8 == v / 16,
        v & 0xF0u8 == v - v % 16,
{
}

proof fn lemma_to_bcd(v: u8)
    by (bit_vector)
    requires
        v < 100,
    ensures
        bcd_ok(to_bcd(v)),
{
}

/// A binary-coded decimal counter that counts up to a maximum and then restarts from
/// its initial value.
pub struct Bcd {
    pub initial: u8,
    pub value: u8,
    pub max: u8,
}

impl Bcd {
    /// Valid digits, and a maximum that a valid counter can reach.
    pub open spec fn wf(&self) -> bool {
        bcd_ok(self.initial) && bcd_ok(self.value) && self.max <= 0x99
    }

    pub fn new(initial: u8, max: u8) -> (r: Self)
        ensures
            r == (Bcd { initial, value: initial, max }),
    {
        Self { initial, value: initial, max }
    }

    /// The value after counting up once with bound `max`, and whether it restarted.
    pub open spec fn counted(&self, max: u8) -> (u8, bool) {
        let v = self.value + 1;
        if v > max {
            (self.initial, true)
        } else if v % 16 > 9 {
            ((v - v % 16 + 16) as u8, false)
        } else {
            (v as u8, false)
        }
    }

    /// Counts up once; past `max` the counter restarts from its initial value, and
    /// the result tells whether it did.
    pub fn inc_with_max(&mut self, max: u8) -> (wrapped: bool)
        requires
            bcd_ok(old(self).initial),
            bcd_ok(old(self).value),
            old(self).value != 0x99 || max <= 0x99,
        ensures
            (final(self).value, wrapped) == old(self).counted(max),
            final(self).initial == old(self).initial,
            final(self).max == old(self).max,
            bcd_ok(final(self).value),
            wrapped ==> final(self).value == old(self).initial,
            !wrapped ==> bcd_num(final(self).value) == bcd_num(old(self).value) + 1,
    {
        proof {
            lemma_nibbles(self.value);
            lemma_nibbles(self.initial);
        }
        self.value = self.value + 1;
        proof {
            lemma_nibbles(self.value);
        }
        if self.value > max {
            self.value = self.initial;
            true
        } else {
            if self.value & 0xF > 9 {
                self.value = (self.value & 0xF0) + 0x10;
            }
            proof {
                lemma_nibbles(self.value);
            }
            false
        }
    }

    /// Counts up once with the counter's own maximum.
    pub fn inc(&mut self) -> (wrapped: bool)
        requires
            old(self).wf(),
        ensures
            (final(self).value, wrapped) == old(self).counted(old(self).max),
            final(self).initial == old(self).initial,
            final(self).max == old(self).max,
            final(self).wf(),
            !wrapped ==> bcd_num(final(self).value) == bcd_num(old(self).value) + 1,
    {
        let max = self.max;
        self.inc_with_max(max)
    }

    pub fn value(&self) -> (r: u8)
        ensures
            r == self.value,
    {
        self.value
    }

    pub fn set_value(&mut self, value: u8)
        requires
            bcd_ok(value),
        ensures
            *final(self) == (Bcd { value, ..*old(self) }),
    {
        self.value = value;
    }
}

/// Control register of the clock.
#[derive(PartialEq, Eq, Structural)]
pub struct Control {
    pub is_24h: bool,
    pub per_min_irq: bool,
}

impl Control {
    pub fn new() -> (r: Control)
        ensures
            !r.is_24h && !r.per_min_irq,
    {
        Control { is_24h: false, per_min_irq: false }
    }

    /// Value of the register: bit 6 the 24-hour mode, bit 3 the per-minute interrupt.
    pub open spec fn read_spec(&self) -> u8 {
        (bool_u8(self.is_24h) << 6u8) | (bool_u8(self.per_min_irq) << 3u8)
    }

    pub fn read(&self) -> (r: u8)
        ensures
            r == self.read_spec(),
    {
        let h: u8 = if self.is_24h { 1 } else { 0 };
        let m: u8 = if self.per_min_irq { 1 } else { 0 };
        (h << 6) | (m << 3)
    }

    /// The register after writing `value`.
    pub open spec fn written(value: u8) -> Control {
        Control { is_24h: (value >> 6u8) & 1 != 0, per_min_irq: (value >> 3u8) & 1 != 0 }
    }

    pub fn write(&mut self, value: u8)
        ensures
            *final(self) == Control::written(value),
    {
        self.is_24h = (value >> 6) & 0x1 != 0;
        self.per_min_irq = (value >> 3) & 0x1 != 0;
    }
}

/// Reading the control register gives back the bits that a write set.
pub proof fn law_control_read_after_write(value: u8)
    ensures
        Control::written(value).read_spec() == value & 0x48,
{
    assert((bool_u8((value >> 6u8) & 1 != 0) << 6u8) | (bool_u8((value >> 3u8) & 1 != 0) << 3u8) == value & 0x48u8)
        by (bit_vector);
}

/// Calendar fields of the local time, as the system clock reports them.
pub struct ClockReading {
    pub year: i32,
    pub month: u32,
    pub day: u32,
    /// Day of the week counted from Sunday (0).
    pub weekday: u32,
    pub is_pm: bool,
    /// Hour on the 12-hour clock.
    pub hour12: u32,
    pub minute: u32,
    pub second: u32,
}

impl ClockReading {
    /// The ranges of the fields.
    pub open spec fn wf(&self) -> bool {
        &&& -262144 <= self.year <= 262143
        &&& 1 <= self.month <= 12
        &&& 1 <= self.day <= 31
        &&& self.weekday <= 6
        &&& 1 <= self.hour12 <= 12
        &&& self.minute <= 59
        &&& self.second <= 59
    }
}

/// Reads the local time with `chrono::Local::now` and takes its calendar fields
/// (`year`, `month`, `day`, `weekday().num_days_from_sunday()`, `hour12`, `minute`,
/// `second`). The contract claims only the ranges that chrono documents for them.
#[verifier::external_body]
fn local_now() -> (r: ClockReading)
    ensures
        r.wf(),
{
    let t = chrono::Local::now();
    let (is_pm, hour12) = chrono::Timelike::hour12(&t);
    ClockReading {
        year: chrono::Datelike::year(&t),
        month: chrono::Datelike::month(&t),
        day: chrono::Datelike::day(&t),
        weekday: chrono::Datelike::weekday(&t).num_days_from_sunday(),
        is_pm,
        hour12,
        minute: chrono::Timelike::minute(&t),
        second: chrono::Timelike::second(&t),
    }
}

/// Date and time registers of the clock.
pub struct DateTime {
    pub control: Control,
    pub year: Bcd,
    pub month: Bcd,
    pub day: Bcd,
    pub day_of_week: Bcd,
    pub is_pm: bool,
    pub hour: Bcd,
    pub minute: Bcd,
    pub second: Bcd,
}

impl DateTime {
    /// All counters are valid.
    pub open spec fn wf(&self) -> bool {
        &&& self.year.wf()
        &&& self.month.wf()
        &&& self.day.wf()
        &&& self.day_of_week.wf()
        &&& self.hour.wf()
        &&& self.minute.wf()
        &&& self.second.wf()
    }

    /// Just set from a clock reading: default control, every counter at its initial
    /// value with its maximum, and every counter but the year valid.
    pub open spec fn fresh(&self) -> bool {
        &&& self.control == Control { is_24h: false, per_min_irq: false }
        &&& self.year.value == self.year.initial && self.year.max == 0x99
        &&& self.month.value == self.month.initial && self.month.max == 0x12
        &&& self.day.value == self.day.initial && self.day.max == 0x30
        &&& self.day_of_week.value == self.day_of_week.initial && self.day_of_week.max == 0x07
        &&& self.hour.value == self.hour.initial && self.hour.max == 0x23
        &&& self.minute.value == self.minute.initial && self.minute.max == 0x59
        &&& self.second.value == self.second.initial && self.second.max == 0x59
        &&& self.month.wf() && self.day.wf() && self.day_of_week.wf()
        &&& self.hour.wf() && self.minute.wf() && self.second.wf()
    }

    /// The registers set from the local time: the clock is reset to the time of day.
    pub fn new() -> (r: DateTime)
        ensures
            r.fresh(),
    {
        let t = local_now();
        DateTime::from_reading(&t)
    }

    /// The registers for a clock reading: each field in binary-coded decimal, the
    /// year counted from 2000.
    pub fn from_reading(t: &ClockReading) -> (r: DateTime)
        requires
            t.wf(),
        ensures
            r.fresh(),
            r.year.initial == to_bcd((t.year - 2000) as u8),
            r.month.initial == to_bcd(t.month as u8),
            r.day.initial == to_bcd(t.day as u8),
            r.day_of_week.initial == to_bcd(t.weekday as u8),
            r.is_pm == t.is_pm,
            r.hour.initial == to_bcd(t.hour12 as u8),
            r.minute.initial == to_bcd(t.minute as u8),
            r.second.initial == to_bcd(t.second as u8),
            2000 <= t.year < 2100 ==> r.wf(),
    {
        let year = bcd((t.year - 2000) as u8);
        let month = bcd(t.month as u8);
        let day = bcd(t.day as u8);
        let day_of_week = bcd(t.weekday as u8);
        let hour = bcd(t.hour12 as u8);
        let minute = bcd(t.minute as u8);
        let second = bcd(t.second as u8);
        proof {
            lemma_to_bcd(t.month as u8);
            lemma_to_bcd(t.day as u8);
            lemma_to_bcd(t.weekday as u8);
            lemma_to_bcd(t.hour12 as u8);
            lemma_to_bcd(t.minute as u8);
            lemma_to_bcd(t.second as u8);
            if 2000 <= t.year < 2100 {
                lemma_to_bcd((t.year - 2000) as u8);
            }
        }
        DateTime {
            control: Control::new(),
            year: Bcd::new(year, 0x99),
            month: Bcd::new(month, 0x12),
            day: Bcd::new(day, 0x30),
            day_of_week: Bcd::new(day_of_week, 0x07),
            is_pm: t.is_pm,
            hour: Bcd::new(hour, 0x23),
            minute: Bcd::new(minute, 0x59),
            second: Bcd::new(second, 0x59),
        }
    }

    /// Register `byte` (0 year, 1 month, 2 day, 3 day of week, 4 hour with the PM flag
    /// in bit 6, 5 minute, 6 second).
    pub open spec fn read_spec(&self, byte: u8) -> u8 {
        if byte == 0 {
            self.year.value
        } else if byte == 1 {
            self.month.value
        } else if byte == 2 {
            self.day.value
        } else if byte == 3 {
            self.day_of_week.value
        } else if byte == 4 {
            let hour = self.hour.value;
            let bit_6 = if self.control.is_24h { hour >= 0x12 } else { self.is_pm };
            (bool_u8(bit_6) << 6u8) | hour
        } else if byte == 5 {
            self.minute.value
        } else {
            self.second.value
        }
    }

    pub fn read(&self, byte: u8) -> (r: u8)
        requires
            byte < 7,
        ensures
            r == self.read_spec(byte),
    {
        match byte {
            0 => self.year.value(),
            1 => self.month.value(),
            2 => self.day.value(),
            3 => self.day_of_week.value(),
            4 => {
                let hour = self.hour.value();
                let bit_6 = if self.control.is_24h { hour >= 0x12 } else { self.is_pm };
                let b: u8 = if bit_6 { 1 } else { 0 };
                (b << 6) | hour
            },
            5 => self.minute.value(),
            _ => self.second.value(),
        }
    }

    /// The registers after writing `value` to register `byte`; writing the hour in
    /// 12-hour mode also sets the PM flag from bit 6.
    pub open spec fn written(self, byte: u8, value: u8) -> DateTime {
        if byte == 0 {
            DateTime { year: Bcd { value, ..self.year }, ..self }
        } else if byte == 1 {
            DateTime { month: Bcd { value, ..self.month }, ..self }
        } else if byte == 2 {
            DateTime { day: Bcd { value, ..self.day }, ..self }
        } else if byte == 3 {
            DateTime { day_of_week: Bcd { value, ..self.day_of_week }, ..self }
        } else if byte == 4 {
            DateTime {
                hour: Bcd { value, ..self.hour },
                is_pm: if !self.control.is_24h { (value >> 6u8) & 1 != 0 } else { self.is_pm },
                ..self
            }
        } else if byte == 5 {
            DateTime { minute: Bcd { value, ..self.minute }, ..self }
        } else {
            DateTime { second: Bcd { value, ..self.second }, ..self }
        }
    }

    pub fn write(&mut self, byte: u8, value: u8)
        requires
            byte < 7,
            bcd_ok(value),
        ensures
            *final(self) == old(self).written(byte, value),
    {
        match byte {
            0 => self.year.set_value(value),
            1 => self.month.set_value(value),
            2 => self.day.set_value(value),
            3 => self.day_of_week.set_value(value),
            4 => {
                self.hour.set_value(value);
                if !self.control.is_24h {
                    self.is_pm = (value >> 6) & 0x1 != 0;
                }
            },
            5 => self.minute.set_value(value),
            _ => self.second.set_value(value),
        }
    }

    /// The registers one second later: seconds, minutes and hours carry into each
    /// other; a carry out of the hours also advances the day of the week and the day,
    /// whose carry advances the month and then the year.
    pub open spec fn ticked(self) -> DateTime {
        let (s, cs) = self.second.counted(self.second.max);
        let second = Bcd { value: s, ..self.second };
        if !cs {
            DateTime { second, ..self }
        } else {
            let (m, cm) = self.minute.counted(self.minute.max);
            let minute = Bcd { value: m, ..self.minute };
            if !cm {
                DateTime { second, minute, ..self }
            } else {
                let (h, ch) = self.hour.counted(self.hour.max);
                let hour = Bcd { value: h, ..self.hour };
                if !ch {
                    DateTime { second, minute, hour, ..self }
                } else {
                    let (w, _cw) = self.day_of_week.counted(self.day_of_week.max);
                    let day_of_week = Bcd { value: w, ..self.day_of_week };
                    let (d, cd) = self.day.counted(30);
                    let day = Bcd { value: d, ..self.day };
                    if !cd {
                        DateTime { second, minute, hour, day_of_week, day, ..self }
                    } else {
                        let (mo, cmo) = self.month.counted(self.month.max);
                        let month = Bcd { value: mo, ..self.month };
                        if !cmo {
                            DateTime { second, minute, hour, day_of_week, day, month, ..self }
                        } else {
                            let (y, _cy) = self.year.counted(self.year.max);
                            let year = Bcd { value: y, ..self.year };
                            DateTime { second, minute, hour, day_of_week, day, month, year, ..self }
                        }
                    }
                }
            }
        }
    }

    /// Advances the registers by one second.
    fn tick(&mut self)
        requires
            old(self).wf(),
        ensures
            *final(self) == old(self).ticked(),
            final(self).wf(),
    {
        if self.second.inc() && self.minute.inc() && self.hour.inc() {
            self.day_of_week.inc();
            if self.day.inc_with_max(30) && self.month.inc() {
                self.year.inc();
            }
        }
    }
}

/// Binary-coded decimal form of a number below 100.
fn bcd(val: u8) -> (r: u8)
    ensures
        r == to_bcd(val),
{
    ((val / 10) << 4) | (val % 10)
}

/// The parameter register that a command addresses.
#[derive(Clone, Copy, PartialEq, Eq, Structural)]
pub enum Parameter {
    Control(u8),
    DateTime(u8),
    Time(u8),
    Reset,
    Irq,
}

/// The parameter selected by command code `value`.
pub open spec fn parameter_of(value: u8) -> Parameter {
    if value == 4 {
        Parameter::Control(0)
    } else if value == 2 {
        Parameter::DateTime(0)
    } else if value == 6 {
        Parameter::Time(0)
    } else if value == 0 {
        Parameter::Reset
    } else {
        Parameter::Irq
    }
}

/// The command codes that name a parameter.
pub open spec fn valid_parameter_code(value: u8) -> bool {
    value == 0 || value == 2 || value == 3 || value == 4 || value == 6
}

impl Parameter {
    pub fn from(value: u8) -> (r: Parameter)
        requires
            valid_parameter_code(value),
        ensures
            r == parameter_of(value),
    {
        match value {
            4 => Parameter::Control(0),
            2 => Parameter::DateTime(0),
            6 => Parameter::Time(0),
            0 => Parameter::Reset,
            _ => Parameter::Irq,
        }
    }
}

/// A byte transfer in progress: the byte and the number of bits done.
#[derive(Clone, Copy, PartialEq, Eq, Structural)]
pub enum AccessType {
    Read(u8, usize),
    Write(u8, usize),
}

/// State of the serial protocol.
#[derive(Clone, Copy, PartialEq, Eq, Structural)]
pub enum Mode {
    Start { done: bool },
    Command(u8, usize),
    Exec(Parameter, AccessType),
    End,
}

/// Command code 0b0110 in the low nibble marks a command sent least significant bit
/// first.
pub const COMMAND_CODE: u8 = 0b0110;

/// Bit-reversal of a three-bit number.
pub open spec fn reverse3(i: u8) -> u8 {
    if i == 0 { 0 } else if i == 1 { 4 } else if i == 2 { 2 } else if i == 3 { 6 }
    else if i == 4 { 1 } else if i == 5 { 5 } else if i == 6 { 3 } else { 7 }
}

fn bit_reversal(i: u8) -> (r: u8)
    requires
        i < 8,
    ensures
        r == reverse3(i),
{
    match i {
        0 => 0,
        1 => 4,
        2 => 2,
        3 => 6,
        4 => 1,
        5 => 5,
        6 => 3,
        _ => 7,
    }
}

/// The four-bit command of a received command byte, which either order of bits may
/// carry.
pub open spec fn decode_command(c: u8) -> u8 {
    if c & 0xF == COMMAND_CODE {
        c >> 4u8
    } else {
        reverse3((c & 0xF) >> 1u8) | ((c & 1) << 3u8)
    }
}

/// The command byte carries the command code in one of its nibbles.
pub open spec fn command_ok(c: u8) -> bool {
    &&& (c & 0xF == COMMAND_CODE || c >> 4u8 == COMMAND_CODE)
    &&& valid_parameter_code(decode_command(c) & 7)
    &&& decode_command(c) >> 3u8 != 0 ==> decode_command(c) & 7 != 3
}

/// Bytes of the identification string that marks a game with a real-time clock.
pub open spec fn rtc_identifier() -> Seq<u8> {
    seq![0x53u8, 0x49, 0x49, 0x52, 0x54, 0x43, 0x5F, 0x56]
}

/// The real-time clock of a game pak, reached through the general-purpose I/O port:
/// a serial protocol over the SCK, SIO and CS pins.
pub struct Rtc {
    pub prev_sck: bool,
    pub sck: bool,
    pub sio: bool,
    pub cs: bool,
    pub is_used: bool,
    pub write_only: bool,
    pub write_mask: u8,
    pub mode: Mode,
    pub last_byte: bool,
    pub counter: usize,
    pub date_time: DateTime,
}

impl Rtc {
    /// Bit counters of the protocol state stay within a byte.
    pub open spec fn wf(&self) -> bool {
        match self.mode {
            Mode::Command(_, bit) => bit <= 7,
            Mode::Exec(_, AccessType::Read(_, bit)) => bit <= 7,
            Mode::Exec(_, AccessType::Write(_, bit)) => bit <= 7,
            _ => true,
        }
    }

    /// A new clock for the ROM `rom` with the date and time `date_time`: idle pins and
    /// protocol, and `is_used` set when the identification string occurs before the
    /// last eight bytes of the ROM or when `force_rtc` asks for it.
    pub open spec fn new_spec(rom: Seq<u8>, force_rtc: bool, date_time: DateTime) -> Rtc {
        Rtc {
            prev_sck: false,
            sck: false,
            sio: false,
            cs: false,
            is_used: (exists|i: int| 0 <= i < rom.len() - 8 && occurs_at(rom, i, rtc_identifier())) || force_rtc,
            write_only: true,
            write_mask: 0b111,
            mode: Mode::Start { done: false },
            counter: CLOCK_FREQ,
            last_byte: false,
            date_time,
        }
    }

    /// The clock of a game pak whose ROM is `rom`, set to the local time.
    pub fn new(rom: &[u8], force_rtc: bool) -> (r: Self)
        requires
            rom.len() >= 8,
        ensures
            r.wf(),
            r == Rtc::new_spec(rom@, force_rtc, r.date_time),
            r.date_time.fresh(),
    {
        let id: Vec<u8> = vec![0x53u8, 0x49, 0x49, 0x52, 0x54, 0x43, 0x5F, 0x56];
        assert(id@ == rtc_identifier());
        let mut found = false;
        let mut i: usize = 0;
        let n = rom.len() - id.len();
        while i < n
            invariant_except_break
                i <= n,
                n == rom.len() - 8,
                id@ == rtc_identifier(),
                !found,
                forall|j: int| 0 <= j < i ==> !occurs_at(rom@, j, rtc_identifier()),
            ensures
                found == (exists|j: int| 0 <= j < rom.len() - 8 && occurs_at(rom@, j, rtc_identifier())),
            decreases n - i,
        {
            if matches_at(rom, i, id.as_slice()) {
                found = true;
                break;
            }
            i = i + 1;
        }
        Self {
            prev_sck: false,
            sck: false,
            sio: false,
            cs: false,
            is_used: found || force_rtc,
            write_only: true,
            write_mask: 0b111,
            mode: Mode::Start { done: false },
            counter: CLOCK_FREQ,
            last_byte: false,
            date_time: DateTime::new(),
        }
    }

    /// Whether reading parameter `p` can go on.
    pub open spec fn read_param_ok(&self, p: Parameter) -> bool {
        match p {
            Parameter::Control(b) => b < 255,
            Parameter::DateTime(b) => b < 7,
            Parameter::Time(b) => b < 3,
            Parameter::Reset => true,
            Parameter::Irq => false,
        }
    }

    /// Reading parameter `p`: its next byte, the parameter that follows, and the
    /// state with `last_byte` telling whether that was the last byte. A reset sets
    /// the date and time to `now`.
    pub open spec fn read_param(self, p: Parameter, now: DateTime) -> (u8, Parameter, Rtc) {
        match p {
            Parameter::Control(b) => (
                self.date_time.control.read_spec(),
                Parameter::Control((b + 1) as u8),
                Rtc { last_byte: b == 0, ..self },
            ),
            Parameter::DateTime(b) => (
                self.date_time.read_spec(b),
                Parameter::DateTime((b + 1) as u8),
                Rtc { last_byte: b == 6, ..self },
            ),
            Parameter::Time(b) => (
                self.date_time.read_spec((b + 4) as u8),
                Parameter::Time((b + 1) as u8),
                Rtc { last_byte: b == 2, ..self },
            ),
            Parameter::Reset => (0, Parameter::Reset, Rtc { date_time: now, last_byte: true, ..self }),
            Parameter::Irq => (0, Parameter::Irq, self),
        }
    }

    fn read_parameter(&mut self, parameter: Parameter) -> (r: (u8, Parameter))
        requires
            old(self).read_param_ok(parameter),
        ensures
            (r.0, r.1, *final(self)) == old(self).read_param(parameter, final(self).date_time),
            parameter == Parameter::Reset ==> final(self).date_time.fresh(),
    {
        match parameter {
            Parameter::Control(byte) => {
                self.last_byte = byte == 0;
                (self.date_time.control.read(), Parameter::Control(byte + 1))
            },
            Parameter::DateTime(byte) => {
                self.last_byte = byte == 6;
                (self.date_time.read(byte), Parameter::DateTime(byte + 1))
            },
            Parameter::Time(byte) => {
                self.last_byte = byte == 2;
                (self.date_time.read(byte + 4), Parameter::Time(byte + 1))
            },
            _ => {
                self.date_time = DateTime::new();
                self.last_byte = true;
                (0, Parameter::Reset)
            },
        }
    }

    /// Whether writing `value` to parameter `p` can go on.
    pub open spec fn write_param_ok(&self, p: Parameter, value: u8) -> bool {
        match p {
            Parameter::Control(b) => b < 255,
            Parameter::DateTime(b) => b < 7 && bcd_ok(value),
            Parameter::Time(b) => b < 3 && bcd_ok(value),
            _ => true,
        }
    }

    /// Writing `value` to parameter `p`: the parameter that follows and the new state.
    pub open spec fn write_param(self, p: Parameter, value: u8, now: DateTime) -> (Parameter, Rtc) {
        match p {
            Parameter::Control(b) => (
                Parameter::Control((b + 1) as u8),
                Rtc { date_time: DateTime { control: Control::written(value), ..self.date_time }, last_byte: b == 0, ..self },
            ),
            Parameter::DateTime(b) => (
                Parameter::DateTime((b + 1) as u8),
                Rtc { date_time: self.date_time.written(b, value), last_byte: b == 6, ..self },
            ),
            Parameter::Time(b) => (
                Parameter::Time((b + 1) as u8),
                Rtc { date_time: self.date_time.written((b + 4) as u8, value), last_byte: b == 2, ..self },
            ),
            Parameter::Reset => (Parameter::Reset, Rtc { date_time: now, last_byte: false, ..self }),
            Parameter::Irq => (Parameter::Irq, Rtc { last_byte: false, ..self }),
        }
    }

    fn write_parameter(&mut self, parameter: Parameter, value: u8) -> (r: Parameter)
        requires
            old(self).write_param_ok(parameter, value),
        ensures
            (r, *final(self)) == old(self).write_param(parameter, value, final(self).date_time),
            parameter == Parameter::Reset ==> final(self).date_time.fresh(),
    {
        match parameter {
            Parameter::Control(byte) => {
                self.date_time.control.write(value);
                self.last_byte = byte == 0;
                Parameter::Control(byte + 1)
            },
            Parameter::DateTime(byte) => {
                self.date_time.write(byte, value);
                self.last_byte = byte == 6;
                Parameter::DateTime(byte + 1)
            },
            Parameter::Time(byte) => {
                self.date_time.write(byte + 4, value);
                self.last_byte = byte == 2;
                Parameter::Time(byte + 1)
            },
            Parameter::Reset => {
                self.date_time = DateTime::new();
                self.last_byte = false;
                Parameter::Reset
            },
            Parameter::Irq => {
                self.last_byte = false;
                Parameter::Irq
            },
        }
    }

    /// SCK went from high to low: the moment a bit is transferred.
    pub open spec fn falling_edge(&self) -> bool {
        self.prev_sck && !self.sck
    }

    /// The next step of the protocol can be taken: the pins follow the protocol, the
    /// command byte is well formed, and a parameter read or written stays within its
    /// registers with valid digits.
    pub open spec fn step_ok(&self) -> bool {
        match self.mode {
            Mode::Start { done } => done || (!self.cs && self.sck),
            Mode::Command(command, bit) => self.falling_edge() ==> if bit == 7 {
                command_ok(command | (bool_u8(self.sio) << 7u8))
            } else {
                self.cs
            },
            Mode::Exec(p, AccessType::Read(_byte, bit)) => self.falling_edge() && bit == 7 && !self.last_byte
                ==> self.read_param_ok(p),
            Mode::Exec(p, AccessType::Write(byte, bit)) => self.falling_edge() && bit == 7 ==> {
                &&& self.write_param_ok(p, byte | (bool_u8(self.sio) << 7u8))
                &&& !self.last_byte ==> byte < 255
            },
            Mode::End => true,
        }
    }

    /// The state after one step of the protocol, with `now` the date and time that a
    /// reset of the clock reads.
    pub open spec fn step(self, now: DateTime) -> Rtc {
        match self.mode {
            Mode::Start { done } => if !done {
                Rtc { mode: Mode::Start { done: true }, ..self }
            } else if self.cs && self.sck {
                Rtc { mode: Mode::Command(0, 0), ..self }
            } else {
                self
            },
            Mode::Command(command, bit) => if !self.falling_edge() {
                self
            } else if bit == 7 {
                let cmd = decode_command(command | (bool_u8(self.sio) << 7u8));
                let p = parameter_of(cmd & 7);
                if cmd >> 3u8 != 0 {
                    let (pb, np, s) = self.read_param(p, now);
                    if np == Parameter::Reset || np == Parameter::Irq {
                        Rtc { mode: Mode::End, ..s }
                    } else {
                        Rtc { mode: Mode::Exec(np, AccessType::Read(pb, 0)), ..s }
                    }
                } else if p == Parameter::Reset || p == Parameter::Irq {
                    Rtc { mode: Mode::End, ..self }
                } else {
                    Rtc { mode: Mode::Exec(p, AccessType::Write(0, 0)), ..self }
                }
            } else {
                Rtc { mode: Mode::Command(command | (bool_u8(self.sio) << (bit as u8)), (bit + 1) as usize), ..self }
            },
            Mode::Exec(p, AccessType::Read(byte, bit)) => if !self.falling_edge() {
                self
            } else if bit == 7 {
                let s1 = Rtc { sio: byte & 1 != 0, ..self };
                if self.last_byte {
                    Rtc { mode: Mode::End, ..s1 }
                } else {
                    let (pb, np, s2) = s1.read_param(p, now);
                    Rtc { mode: Mode::Exec(np, AccessType::Read(pb, 0)), ..s2 }
                }
            } else {
                Rtc {
                    sio: byte & 1 != 0,
                    mode: Mode::Exec(p, AccessType::Read(byte >> 1u8, (bit + 1) as usize)),
                    ..self
                }
            },
            Mode::Exec(p, AccessType::Write(byte, bit)) => if !self.falling_edge() {
                self
            } else if bit == 7 {
                let (_np, s1) = self.write_param(p, byte | (bool_u8(self.sio) << 7u8), now);
                if self.last_byte {
                    Rtc { mode: Mode::End, ..s1 }
                } else {
                    Rtc { mode: Mode::Exec(p, AccessType::Write((byte + 1) as u8, 0)), ..s1 }
                }
            } else {
                Rtc {
                    mode: Mode::Exec(p, AccessType::Write(byte | (bool_u8(self.sio) << (bit as u8)), (bit + 1) as usize)),
                    ..self
                }
            },
            Mode::End => if !self.cs && self.sck {
                Rtc { mode: Mode::Start { done: false }, ..self }
            } else {
                self
            },
        }
    }

    /// The step resets the date and time from the system clock.
    pub open spec fn step_resets(&self) -> bool {
        match self.mode {
            Mode::Command(command, bit) => self.falling_edge() && bit == 7 && {
                let cmd = decode_command(command | (bool_u8(self.sio) << 7u8));
                cmd >> 3u8 != 0 && parameter_of(cmd & 7) == Parameter::Reset
            },
            Mode::Exec(p, AccessType::Read(_, bit)) => self.falling_edge() && bit == 7 && !self.last_byte
                && p == Parameter::Reset,
            Mode::Exec(p, AccessType::Write(_, bit)) => self.falling_edge() && bit == 7 && p == Parameter::Reset,
            _ => false,
        }
    }

    /// The pins and the command byte as the current step of the protocol takes them.
    fn command(&self, command: u8) -> (r: u8)
        requires
            command_ok(command),
        ensures
            r == decode_command(command),
    {
        if command & 0xF == COMMAND_CODE {
            command >> 4
        } else {
            proof {
                crate::bits::lemma_u8_fields(command);
            }
            bit_reversal((command & 0xF) >> 1) | ((command & 0x1) << 3)
        }
    }

    /// A step while the command byte comes in.
    fn step_command(&mut self, command: u8, bit: usize)
        requires
            old(self).wf(),
            old(self).step_ok(),
            old(self).mode == Mode::Command(command, bit),
        ensures
            *final(self) == old(self).step(final(self).date_time),
            old(self).step_resets() ==> final(self).date_time.fresh(),
    {
        if self.prev_sck && !self.sck {
            let sio: u8 = if self.sio { 1 } else { 0 };
            if bit == 7 {
                self.finish_command(command | (sio << 7));
            } else {
                self.mode = Mode::Command(command | (sio << (bit as u8)), bit + 1);
            }
        }
    }

    /// Decodes the complete command byte `c` and starts the transfer it asks for.
    #[verifier::rlimit(30)]
    fn finish_command(&mut self, c: u8)
        requires
            command_ok(c),
        ensures
            ({
                let cmd = decode_command(c);
                let p = parameter_of(cmd & 7);
                if cmd >> 3u8 != 0 {
                    let (pb, np, s) = old(self).read_param(p, final(self).date_time);
                    if np == Parameter::Reset || np == Parameter::Irq {
                        *final(self) == Rtc { mode: Mode::End, ..s }
                    } else {
                        *final(self) == Rtc { mode: Mode::Exec(np, AccessType::Read(pb, 0)), ..s }
                    }
                } else if p == Parameter::Reset || p == Parameter::Irq {
                    *final(self) == Rtc { mode: Mode::End, ..*old(self) }
                } else {
                    *final(self) == Rtc { mode: Mode::Exec(p, AccessType::Write(0, 0)), ..*old(self) }
                }
            }),
            decode_command(c) >> 3u8 != 0 && parameter_of(decode_command(c) & 7) == Parameter::Reset
                ==> final(self).date_time.fresh(),
    {
        let command = self.command(c);
        let parameter = Parameter::from(command & 0x7);
        if command >> 3 != 0 {
            let (parameter_byte, next_parameter) = self.read_parameter(parameter);
            if next_parameter == Parameter::Reset || next_parameter == Parameter::Irq {
                self.mode = Mode::End;
            } else {
                self.mode = Mode::Exec(next_parameter, AccessType::Read(parameter_byte, 0));
            }
        } else if parameter == Parameter::Reset || parameter == Parameter::Irq {
            self.mode = Mode::End;
        } else {
            self.mode = Mode::Exec(parameter, AccessType::Write(0, 0));
        }
    }

    /// A step while a parameter byte goes out.
    fn step_read(&mut self, parameter: Parameter, byte: u8, bit: usize)
        requires
            old(self).wf(),
            old(self).step_ok(),
            old(self).mode == Mode::Exec(parameter, AccessType::Read(byte, bit)),
        ensures
            *final(self) == old(self).step(final(self).date_time),
            old(self).step_resets() ==> final(self).date_time.fresh(),
    {
        if self.prev_sck && !self.sck {
            if bit == 7 {
                let done = self.last_byte;
                self.sio = byte & 0x1 != 0;
                if done {
                    self.mode = Mode::End;
                } else {
                    let (parameter_byte, next_parameter) = self.read_parameter(parameter);
                    self.mode = Mode::Exec(next_parameter, AccessType::Read(parameter_byte, 0));
                }
            } else {
                self.sio = byte & 0x1 != 0;
                self.mode = Mode::Exec(parameter, AccessType::Read(byte >> 1, bit + 1));
            }
        }
    }

    /// A step while a parameter byte comes in.
    fn step_write(&mut self, parameter: Parameter, byte: u8, bit: usize)
        requires
            old(self).wf(),
            old(self).step_ok(),
            old(self).mode == Mode::Exec(parameter, AccessType::Write(byte, bit)),
        ensures
            *final(self) == old(self).step(final(self).date_time),
            old(self).step_resets() ==> final(self).date_time.fresh(),
    {
        if self.prev_sck && !self.sck {
            let sio: u8 = if self.sio { 1 } else { 0 };
            if bit == 7 {
                let done = self.last_byte;
                self.write_parameter(parameter, byte | (sio << 7));
                if done {
                    self.mode = Mode::End;
                } else {
                    self.mode = Mode::Exec(parameter, AccessType::Write(byte + 1, 0));
                }
            } else {
                self.mode = Mode::Exec(parameter, AccessType::Write(byte | (sio << (bit as u8)), bit + 1));
            }
        }
    }

    /// Whether the pins of bit `bit` of the port are outputs of the console.
    pub open spec fn can_write_spec(&self, bit: u8) -> bool {
        (self.write_mask >> bit) & 1 != 0
    }

    /// Value of the port register at `byte`: the data register shows the pins that
    /// the console does not drive, then the direction and control registers.
    pub open spec fn register_value(&self, byte: u8) -> u8 {
        if byte == 0 {
            let v0: u8 = 0;
            let v1: u8 = if !self.can_write_spec(0) { v0 | bool_u8(self.sck) } else { v0 };
            let v2: u8 = if !self.can_write_spec(1) { v1 | (bool_u8(self.sio) << 1u8) } else { v1 };
            if !self.can_write_spec(2) { v2 | (bool_u8(self.cs) << 2u8) } else { v2 }
        } else if byte == 2 {
            self.write_mask
        } else if byte == 4 {
            bool_u8(self.write_only)
        } else {
            0
        }
    }

    /// The pins after the console writes `value` to the data register: each pin that
    /// the console drives takes its bit (SCK bit 0, SIO bit 1, CS bit 2).
    pub open spec fn pins_written(self, value: u8) -> Rtc {
        let s1 = if self.can_write_spec(0) { Rtc { prev_sck: self.sck, sck: value & 1 != 0, ..self } } else { self };
        let s2 = if self.can_write_spec(1) { Rtc { sio: (value >> 1u8) & 1 != 0, ..s1 } } else { s1 };
        if self.can_write_spec(2) { Rtc { cs: (value >> 2u8) & 1 != 0, ..s2 } } else { s2 }
    }

    /// A write of `value` to the port register at `byte` can be carried out.
    pub open spec fn write_ok(&self, byte: u8, value: u8) -> bool {
        byte == 0 ==> self.pins_written(value).step_ok()
    }

    /// `after` is the state after writing `value` to the port register at `byte`;
    /// a reset of the clock reads the date and time that `after` holds.
    pub open spec fn write_result(&self, byte: u8, value: u8, after: Rtc) -> bool {
        if byte == 0 {
            &&& after == self.pins_written(value).step(after.date_time)
            &&& self.pins_written(value).step_resets() ==> after.date_time.fresh()
        } else if byte == 2 {
            after == Rtc { write_mask: value & 0xF, ..*self }
        } else if byte == 4 {
            after == Rtc { write_only: value & 1 == 0, ..*self }
        } else {
            after == *self
        }
    }
}

impl GpioDevice for Rtc {
    open spec fn device_wf(&self) -> bool {
        self.wf()
    }

    open spec fn clock_ok(&self) -> bool {
        self.is_used && self.counter == 0 ==> self.date_time.wf()
    }

    open spec fn write_step_ok(&self) -> bool {
        self.step_ok()
    }

    open spec fn register_spec(&self, byte: u8) -> u8 {
        self.register_value(byte)
    }

    open spec fn write_allowed(&self, byte: u8, value: u8) -> bool {
        self.write_ok(byte, value)
    }

    open spec fn written_to(&self, byte: u8, value: u8, after: &Self) -> bool {
        self.write_result(byte, value, *after)
    }

    /// Counts down one tick of the system clock; when the count runs out the date and
    /// time advance by one second and the count restarts.
    fn clock(&mut self)
        ensures
            !old(self).is_used ==> *final(self) == *old(self),
            old(self).is_used && old(self).counter == 0 ==> *final(self) == (Rtc {
                counter: CLOCK_FREQ,
                date_time: old(self).date_time.ticked(),
                ..*old(self)
            }),
            old(self).is_used && old(self).counter != 0 ==> *final(self) == (Rtc {
                counter: (old(self).counter - 1) as usize,
                ..*old(self)
            }),
            old(self).date_time.wf() ==> final(self).date_time.wf(),
    {
        if !self.is_used {
            return;
        }
        if self.counter == 0 {
            self.counter = CLOCK_FREQ;
            self.date_time.tick();
        } else {
            self.counter = self.counter - 1;
        }
    }

    /// Takes one step of the serial protocol after the pins changed.
    fn process_write(&mut self)
        ensures
            *final(self) == old(self).step(final(self).date_time),
            old(self).step_resets() ==> final(self).date_time.fresh(),
    {
        match self.mode {
            Mode::Start { done } => {
                if !done {
                    self.mode = Mode::Start { done: true };
                } else if self.cs && self.sck {
                    self.mode = Mode::Command(0, 0);
                }
            },
            Mode::Command(command, bit) => self.step_command(command, bit),
            Mode::Exec(parameter, AccessType::Read(byte, bit)) => self.step_read(parameter, byte, bit),
            Mode::Exec(parameter, AccessType::Write(byte, bit)) => self.step_write(parameter, byte, bit),
            Mode::End => {
                if !self.cs && self.sck {
                    self.mode = Mode::Start { done: false };
                }
            },
        }
    }

    fn read(&self, byte: u8) -> (r: u8) {
        match byte {
            0 => {
                let mut val: u8 = 0;
                if !self.can_write(0) {
                    val = val | (if self.sck { 1u8 } else { 0u8 });
                }
                if !self.can_write(1) {
                    val = val | ((if self.sio { 1u8 } else { 0u8 }) << 1);
                }
                if !self.can_write(2) {
                    val = val | ((if self.cs { 1u8 } else { 0u8 }) << 2);
                }
                val
            },
            2 => self.write_mask(),
            4 => if self.write_only() { 1 } else { 0 },
            _ => 0,
        }
    }

    fn write(&mut self, byte: u8, value: u8) {
        match byte {
            0 => {
                if self.can_write(0) {
                    self.prev_sck = self.sck;
                    self.sck = value & 0x1 != 0;
                }
                if self.can_write(1) {
                    self.sio = (value >> 1) & 0x1 != 0;
                }
                if self.can_write(2) {
                    self.cs = (value >> 2) & 0x1 != 0;
                }
                self.process_write();
            },
            2 => self.set_write_mask(value & 0xF),
            4 => self.set_write_only(value & 0x1 == 0),
            _ => {},
        }
    }

    fn is_used(&self) -> (r: bool)
        ensures
            r == self.is_used,
    {
        self.is_used
    }

    fn write_mask(&self) -> (r: u8)
        ensures
            r == self.write_mask,
    {
        self.write_mask
    }

    fn can_write(&self, bit: u8) -> (r: bool)
        ensures
            r == self.can_write_spec(bit),
    {
        (self.write_mask >> bit) & 0x1 != 0
    }

    fn set_write_mask(&mut self, value: u8)
        ensures
            *final(self) == (Rtc { write_mask: value, ..*old(self) }),
    {
        self.write_mask = value;
    }

    fn write_only(&self) -> (r: bool)
        ensures
            r == self.write_only,
    {
        self.write_only
    }

    fn set_write_only(&mut self, value: bool)
        ensures
            *final(self) == (Rtc { write_only: value, ..*old(self) }),
    {
        self.write_only = value;
    }
}


/// Counting `b` up once against `max`: below `max` the number it stands for goes up by
/// one, at or above `max` it restarts from its initial value.
proof fn lemma_counted(b: Bcd, max: u8)
    requires
        bcd_ok(b.value),
        b.value != 0x99 || max <= 0x99,
    ensures
        b.value >= max ==> b.counted(max) == (b.initial, true),
        b.value < max ==> !b.counted(max).1 && bcd_num(b.counted(max).0) == bcd_num(b.value) + 1,
{
    lemma_nibbles(b.value);
    let v = (b.value + 1) as u8;
    if b.value < max {
        lemma_nibbles(v);
        if v % 16 > 9 {
            lemma_nibbles((v - v % 16 + 16) as u8);
        }
    }
}

/// `b2` is counter `b` after a tick that reaches it (`carry`): below `max` the number
/// goes up by one, at `max` or above it restarts from its initial value; a tick that
/// does not reach it leaves it as it was.
pub open spec fn bcd_stepped(b: Bcd, b2: Bcd, max: u8, carry: bool) -> bool {
    if !carry {
        b2 == b
    } else if b.value < max {
        &&& bcd_num(b2.value) == bcd_num(b.value) + 1
        &&& b2.initial == b.initial
        &&& b2.max == b.max
    } else {
        b2 == (Bcd { value: b.initial, ..b })
    }
}

/// One second of the real-time clock: the seconds count up; each counter that restarts
/// (reaches its maximum) carries into the next, seconds into minutes, minutes into
/// hours, hours into the day of the week and the day, the day (past 30) into the
/// month, and the month into the year. The control register and the AM/PM flag stay.
pub proof fn law_tick_carries(d: DateTime)
    requires
        d.wf(),
    ensures
        ({
            let d2 = d.ticked();
            let cm = d.second.value >= d.second.max;
            let ch = cm && d.minute.value >= d.minute.max;
            let cd = ch && d.hour.value >= d.hour.max;
            let cmo = cd && d.day.value >= 30;
            let cy = cmo && d.month.value >= d.month.max;
            &&& bcd_stepped(d.second, d2.second, d.second.max, true)
            &&& bcd_stepped(d.minute, d2.minute, d.minute.max, cm)
            &&& bcd_stepped(d.hour, d2.hour, d.hour.max, ch)
            &&& bcd_stepped(d.day_of_week, d2.day_of_week, d.day_of_week.max, cd)
            &&& bcd_stepped(d.day, d2.day, 30, cd)
            &&& bcd_stepped(d.month, d2.month, d.month.max, cmo)
            &&& bcd_stepped(d.year, d2.year, d.year.max, cy)
            &&& d2.control == d.control
            &&& d2.is_pm == d.is_pm
        }),
{
    lemma_counted(d.second, d.second.max);
    lemma_counted(d.minute, d.minute.max);
    lemma_counted(d.hour, d.hour.max);
    lemma_counted(d.day_of_week, d.day_of_week.max);
    lemma_counted(d.day, 30);
    lemma_counted(d.month, d.month.max);
    lemma_counted(d.year, d.year.max);
}

} // verus!

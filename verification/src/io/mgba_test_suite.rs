use vstd::prelude::*;

verus! {

/// Level of a message of the debug output port.
#[derive(Clone, Copy, Debug, PartialEq, Eq, Structural)]
pub enum MGBALogLevel {
    Fatal,
    Error,
    Warn,
    Info,
    Debug,
}

/// The level with number `val` (0 to 4).
pub open spec fn log_level_of(val: u16) -> MGBALogLevel {
    if val == 0 {
        MGBALogLevel::Fatal
    } else if val == 1 {
        MGBALogLevel::Error
    } else if val == 2 {
        MGBALogLevel::Warn
    } else if val == 3 {
        MGBALogLevel::Info
    } else {
        MGBALogLevel::Debug
    }
}

impl MGBALogLevel {
    pub fn new(val: u16) -> (r: Self)
        requires
            val < 5,
        ensures
            r == log_level_of(val),
    {
        match val {
            0 => MGBALogLevel::Fatal,
            1 => MGBALogLevel::Error,
            2 => MGBALogLevel::Warn,
            3 => MGBALogLevel::Info,
            _ => MGBALogLevel::Debug,
        }
    }
}

/// Index of the first `c` at or after `i` in `s`, or the length of `s`.
pub open spec fn first_index(s: Seq<char>, c: char, i: int) -> int
    decreases s.len() - i,
{
    if i >= s.len() || i < 0 {
        s.len() as int
    } else if s[i] == c {
        i
    } else {
        first_index(s, c, i + 1)
    }
}

/// Index of the last `c` before `n` in `s`, or -1.
pub open spec fn last_index(s: Seq<char>, c: char, n: int) -> int
    decreases n,
{
    if n <= 0 {
        -1
    } else if s[n - 1] == c {
        n - 1
    } else {
        last_index(s, c, n - 1)
    }
}

/// `p` occurs in `s`.
pub open spec fn contains_text(s: Seq<char>, p: Seq<char>) -> bool {
    exists|i: int| 0 <= i && i + p.len() <= s.len() && #[trigger] s.subrange(i, i + p.len()) == p
}

/// The text of the buffer up to its first NUL.
pub open spec fn message_of(buffer: Seq<char>) -> Seq<char> {
    buffer.take(first_index(buffer, '\0', 0))
}

/// The second space-separated word of `m` (empty without a space).
pub open spec fn second_word(m: Seq<char>) -> Seq<char> {
    let f = first_index(m, ' ', 0);
    if f >= m.len() {
        Seq::empty()
    } else {
        let rest = m.skip(f + 1);
        rest.take(first_index(rest, ' ', 0))
    }
}

/// The last space-separated word of `m`.
pub open spec fn last_word(m: Seq<char>) -> Seq<char> {
    m.skip(last_index(m, ' ', m.len() as int) + 1)
}

/// "PASS"
pub open spec fn pass_text() -> Seq<char> {
    seq!['P', 'A', 'S', 'S']
}

/// "FAIL"
pub open spec fn fail_text() -> Seq<char> {
    seq!['F', 'A', 'I', 'L']
}

/// Whether a message at `level` is shown: errors and warnings always; information
/// for a failure whose second word has no 'P'; debug output whose last word has no
/// 'P'.
pub open spec fn shown(level: MGBALogLevel, m: Seq<char>) -> bool {
    match level {
        MGBALogLevel::Info => contains_text(m, fail_text()) && !second_word(m).contains('P'),
        MGBALogLevel::Debug => !last_word(m).contains('P'),
        _ => true,
    }
}

/// The debug output port of the mGBA test suite: a message buffer, an enable
/// register and a flags register whose bit 8 sends the message at the level in
/// bits 0 to 2.
pub struct MGBATestSuite {
    pub buffer: [char; 0x100],
    pub enable: u16,
    pub flags: u16,
}

impl MGBATestSuite {
    pub fn new() -> (r: MGBATestSuite)
        ensures
            forall|i: int| 0 <= i < 0x100 ==> r.buffer[i] == '\0',
            r.enable == 0,
            r.flags == 0,
    {
        MGBATestSuite { buffer: ['\0'; 0x100], enable: 0, flags: 0 }
    }

    /// The port is enabled by writing 0xC0DE to the enable register.
    pub open spec fn enabled_spec(&self) -> bool {
        self.enable == 0xC0DE
    }

    pub fn enabled(&self) -> (r: bool)
        ensures
            r == self.enabled_spec(),
    {
        self.enable == 0xC0DE
    }

    /// Writes a byte of the enable register (0x04FFF780 and 0x04FFF781).
    pub fn write_enable(&mut self, addr: u32, value: u8)
        ensures
            addr == 0x4FFF780 ==> *final(self) == (MGBATestSuite {
                enable: (old(self).enable & !0x00FFu16) | ((value as u16) & 0x00FF),
                ..*old(self)
            }),
            addr == 0x4FFF781 ==> *final(self) == (MGBATestSuite {
                enable: (old(self).enable & !0xFF00u16) | (((value as u16) << 8u16) & 0xFF00),
                ..*old(self)
            }),
            addr != 0x4FFF780 && addr != 0x4FFF781 ==> *final(self) == *old(self),
    {
        if addr == 0x4FFF780 {
            self.enable = (self.enable & !0x00FF) | ((value as u16) & 0x00FF);
        } else if addr == 0x4FFF781 {
            self.enable = (self.enable & !0xFF00) | (((value as u16) << 8) & 0xFF00);
        }
    }

    /// Reads the enable register: 0x1DEA while enabled, 0 otherwise.
    pub fn read_register(&self, addr: u32) -> (r: u8)
        ensures
            r == (if addr == 0x4FFF780 && self.enabled_spec() {
                0xEAu8
            } else if addr == 0x4FFF781 && self.enabled_spec() {
                0x1Du8
            } else {
                0u8
            }),
    {
        if addr == 0x4FFF780 {
            if self.enabled() { 0xEA } else { 0 }
        } else if addr == 0x4FFF781 {
            if self.enabled() { 0x1D } else { 0 }
        } else {
            0
        }
    }

    /// The flags register after writing `value` to its high byte.
    pub open spec fn flags_high_written(&self, value: u8) -> u16 {
        (self.flags & !0xFF00u16) | (((value as u16) << 8u16) & 0xFF00)
    }

    /// Writing `value` at `addr` can be carried out: a message that is sent and not a
    /// pass has a level between 0 and 4.
    pub open spec fn write_ok(&self, addr: u32, value: u8) -> bool {
        self.enabled_spec() && addr == 0x4FFF701 && self.flags_high_written(value) & 0x100 != 0
            && !contains_text(message_of(self.buffer@), pass_text()) ==> self.flags_high_written(value) & 7 < 5
    }

    /// Writes the port while it is enabled: a byte of the message buffer
    /// (0x04FFF600 to 0x04FFF6FF) or of the flags register (0x04FFF700, 0x04FFF701).
    /// When the flags' send bit is set, returns the message to show and its level:
    /// the buffer up to its first NUL, unless it reports a pass or its level hides it.
    pub fn write_register(&mut self, addr: u32, value: u8) -> (r: Option<(MGBALogLevel, Vec<char>)>)
        requires
            old(self).write_ok(addr, value),
        ensures
            !old(self).enabled_spec() ==> *final(self) == *old(self) && r is None,
            old(self).enabled_spec() && 0x4FFF600 <= addr <= 0x4FFF6FF ==> r is None
                && final(self).buffer@ == old(self).buffer@.update(addr - 0x4FFF600, value as char)
                && final(self).enable == old(self).enable && final(self).flags == old(self).flags,
            old(self).enabled_spec() && addr == 0x4FFF700 ==> r is None && *final(self) == (MGBATestSuite {
                flags: (old(self).flags & !0x00FFu16) | ((value as u16) & 0x00FF),
                ..*old(self)
            }),
            old(self).enabled_spec() && addr == 0x4FFF701 ==> {
                let flags = old(self).flags_high_written(value);
                let m = message_of(old(self).buffer@);
                &&& *final(self) == (MGBATestSuite { flags, ..*old(self) })
                &&& r matches Some((level, text)) ==> level == log_level_of(flags & 7) && text@ == m
                &&& (r is Some <==> flags & 0x100 != 0 && !contains_text(m, pass_text())
                    && shown(log_level_of(flags & 7), m))
            },
            old(self).enabled_spec() && !(0x4FFF600 <= addr <= 0x4FFF701) ==> r is None && *final(self)
                == *old(self),
    {
        if !self.enabled() {
            return None;
        }
        if 0x4FFF600 <= addr && addr <= 0x4FFF6FF {
            self.buffer[(addr - 0x4FFF600) as usize] = value as char;
            None
        } else if addr == 0x4FFF700 {
            self.flags = (self.flags & !0x00FF) | ((value as u16) & 0x00FF);
            None
        } else if addr == 0x4FFF701 {
            self.flags = (self.flags & !0xFF00) | (((value as u16) << 8) & 0xFF00);
            if self.flags & 0x100 != 0 {
                let message = self.message();
                if contains_chars(&message, &['P', 'A', 'S', 'S']) {
                    return None;
                }
                let level = MGBALogLevel::new(self.flags & 0x7);
                let show = match level {
                    MGBALogLevel::Info => contains_chars(&message, &['F', 'A', 'I', 'L'])
                        && !second_word_has(&message, 'P'),
                    MGBALogLevel::Debug => !last_word_has(&message, 'P'),
                    _ => true,
                };
                if show {
                    Some((level, message))
                } else {
                    None
                }
            } else {
                None
            }
        } else {
            None
        }
    }

    /// The buffer up to its first NUL.
    fn message(&self) -> (r: Vec<char>)
        ensures
            r@ == message_of(self.buffer@),
    {
        let mut r: Vec<char> = Vec::new();
        let mut i: usize = 0;
        while i < 0x100 && self.buffer[i] != '\0'
            invariant
                i <= 0x100,
                forall|j: int| 0 <= j < i ==> self.buffer@[j] != '\0',
                r@ == self.buffer@.take(i as int),
            decreases 0x100 - i,
        {
            r.push(self.buffer[i]);
            i = i + 1;
        }
        proof {
            lemma_first_index_from(self.buffer@, '\0', i as int);
        }
        r
    }
}

/// Scanning for `c` past a prefix without it finds what scanning from the start does.
proof fn lemma_first_index_from(s: Seq<char>, c: char, i: int)
    requires
        0 <= i <= s.len(),
        forall|j: int| 0 <= j < i ==> s[j] != c,
        i < s.len() ==> s[i] == c,
    ensures
        first_index(s, c, 0) == i,
{
    lemma_first_index_skip(s, c, 0, i);
}

proof fn lemma_first_index_skip(s: Seq<char>, c: char, k: int, i: int)
    requires
        0 <= k <= i <= s.len(),
        forall|j: int| k <= j < i ==> s[j] != c,
        i < s.len() ==> s[i] == c,
    ensures
        first_index(s, c, k) == i,
    decreases i - k,
{
    if k < i {
        lemma_first_index_skip(s, c, k + 1, i);
    }
}

/// Whether `p` occurs in `s`.
fn contains_chars(s: &Vec<char>, p: &[char]) -> (r: bool)
    ensures
        r == contains_text(s@, p@),
{
    if p.len() > s.len() {
        proof {
            assert forall|i: int| 0 <= i && i + p@.len() <= s@.len() implies #[trigger] s@.subrange(i, i + p@.len())
                != p@ by {}
        }
        return false;
    }
    let n = s.len() - p.len();
    let mut i: usize = 0;
    while i <= n
        invariant
            n == s.len() - p.len(),
            i <= n + 1,
            forall|j: int| 0 <= j < i ==> #[trigger] s@.subrange(j, j + p@.len()) != p@,
        decreases n + 1 - i,
    {
        let mut k: usize = 0;
        let mut ok = true;
        while k < p.len()
            invariant
                k <= p.len(),
                i <= n,
                n == s.len() - p.len(),
                ok == forall|j: int| 0 <= j < k ==> s@[i + j] == p@[j],
            decreases p.len() - k,
        {
            if s[i + k] != p[k] {
                ok = false;
            }
            k = k + 1;
        }
        if ok {
            assert(s@.subrange(i as int, i + p@.len()) =~= p@);
            return true;
        }
        proof {
            let j = choose|j: int| 0 <= j < p.len() && s@[i + j] != p@[j];
            assert(s@.subrange(i as int, i + p@.len())[j] != p@[j]);
        }
        i = i + 1;
    }
    proof {
        assert forall|j: int| 0 <= j && j + p@.len() <= s@.len() implies #[trigger] s@.subrange(j, j + p@.len())
            != p@ by {
            assert(j < i);
        }
    }
    false
}

/// Whether `c` occurs in `s[from..to]`.
fn has_char(s: &Vec<char>, from: usize, to: usize, c: char) -> (r: bool)
    requires
        from <= to <= s.len(),
    ensures
        r == s@.subrange(from as int, to as int).contains(c),
{
    let mut i = from;
    while i < to
        invariant
            from <= i <= to <= s.len(),
            forall|j: int| from <= j < i ==> s@[j] != c,
        decreases to - i,
    {
        if s[i] == c {
            assert(s@.subrange(from as int, to as int)[i - from] == c);
            return true;
        }
        i = i + 1;
    }
    proof {
        assert forall|j: int| 0 <= j < to - from implies s@.subrange(from as int, to as int)[j] != c by {
            assert(s@[from + j] != c);
        }
    }
    false
}

/// Index of the first `c` in `s` at or after `from`, or the length.
fn find_char(s: &Vec<char>, from: usize, c: char) -> (r: usize)
    requires
        from <= s.len(),
    ensures
        r == first_index(s@, c, from as int),
{
    let mut i = from;
    while i < s.len() && s[i] != c
        invariant
            from <= i <= s.len(),
            forall|j: int| from <= j < i ==> s@[j] != c,
        decreases s.len() - i,
    {
        i = i + 1;
    }
    proof {
        lemma_first_index_skip(s@, c, from as int, i as int);
    }
    i
}

/// Whether the second space-separated word of `m` holds `c`.
fn second_word_has(m: &Vec<char>, c: char) -> (r: bool)
    ensures
        r == second_word(m@).contains(c),
{
    let f = find_char(m, 0, ' ');
    if f >= m.len() {
        assert(second_word(m@) =~= Seq::<char>::empty());
        return false;
    }
    let g = find_char(m, f + 1, ' ');
    proof {
        let rest = m@.skip(f + 1);
        lemma_first_index_shift(m@, ' ', f + 1, (f + 1) as int);
        lemma_first_index_bounds(m@, ' ', f + 1);
        assert(rest.take(first_index(rest, ' ', 0)) =~= m@.subrange(f + 1, g as int));
    }
    has_char(m, f + 1, g, c)
}

/// The first index found from `k` lies between `k` and the length.
proof fn lemma_first_index_bounds(s: Seq<char>, c: char, k: int)
    requires
        0 <= k <= s.len(),
    ensures
        k <= first_index(s, c, k) <= s.len(),
    decreases s.len() - k,
{
    if k < s.len() {
        lemma_first_index_bounds(s, c, k + 1);
    }
}

/// Scanning a suffix from its start finds the index that scanning the whole sequence
/// from the suffix's start does, shifted.
proof fn lemma_first_index_shift(s: Seq<char>, c: char, off: int, k: int)
    requires
        0 <= off <= k <= s.len(),
    ensures
        first_index(s.skip(off), c, k - off) == first_index(s, c, k) - off,
    decreases s.len() - k,
{
    if k < s.len() {
        lemma_first_index_shift(s, c, off, k + 1);
    }
}

/// Whether the last space-separated word of `m` holds `c`.
fn last_word_has(m: &Vec<char>, c: char) -> (r: bool)
    ensures
        r == last_word(m@).contains(c),
{
    let mut i = m.len();
    while i > 0
        invariant_except_break
            i <= m.len(),
            last_index(m@, ' ', m.len() as int) == last_index(m@, ' ', i as int),
        ensures
            i <= m.len(),
            last_index(m@, ' ', m.len() as int) + 1 == i,
        decreases i,
    {
        if m[i - 1] == ' ' {
            break;
        }
        i = i - 1;
    }
    assert(last_word(m@) =~= m@.subrange(i as int, m.len() as int));
    has_char(m, i, m.len(), c)
}

} // verus!

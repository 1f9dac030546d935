//! Frame metrics: per-second update and render counters, the wrapping tick
//! counter, and the verified window-title diagnostics line.

use vstd::prelude::*;
use vstd::string::StringExecFns;

verus! {

pub struct Metrics {
    /// Updates counted since the last report.
    pub updates: u32,
    /// Rendered frames counted since the last report.
    pub frames: u32,
    /// Tick counter wrapping at `wrap`.
    pub clk: u8,
    /// Logical updates per second; the wrap point of `clk`.
    pub wrap: u8,
}

impl Metrics {
    pub open spec fn wf(self) -> bool {
        &&& self.wrap > 0
        &&& self.clk < self.wrap
    }

    pub fn new(wrap: u8) -> (m: Metrics)
        requires
            wrap > 0,
        ensures
            m.updates == 0 && m.frames == 0 && m.clk == 0 && m.wrap == wrap,
            m.wf(),
    {
        Metrics { updates: 0, frames: 0, clk: 0, wrap }
    }

    /// Count one logical update: the per-second counter saturates, the tick
    /// counter steps and wraps at `wrap`.
    pub fn count_update(&mut self)
        requires
            old(self).wf(),
        ensures
            final(self).updates == if old(self).updates < u32::MAX {
                old(self).updates + 1
            } else {
                old(self).updates as int
            },
            final(self).clk == if old(self).clk + 1 >= old(self).wrap {
                0
            } else {
                old(self).clk + 1
            },
            final(self).frames == old(self).frames,
            final(self).wrap == old(self).wrap,
            final(self).wf(),
    {
        self.clk = self.clk + 1;
        if self.clk >= self.wrap {
            self.clk = 0;
        }
        if self.updates < u32::MAX {
            self.updates = self.updates + 1;
        }
    }

    /// Count one rendered frame; the per-second counter saturates.
    pub fn count_render(&mut self)
        requires
            old(self).wf(),
        ensures
            final(self).frames == if old(self).frames < u32::MAX {
                old(self).frames + 1
            } else {
                old(self).frames as int
            },
            final(self).updates == old(self).updates,
            final(self).clk == old(self).clk,
            final(self).wrap == old(self).wrap,
            final(self).wf(),
    {
        if self.frames < u32::MAX {
            self.frames = self.frames + 1;
        }
    }

    /// Hand out the counts gathered since the last report and reset them.
    pub fn take_report(&mut self) -> (r: (u32, u32))
        requires
            old(self).wf(),
        ensures
            r.0 == old(self).updates,
            r.1 == old(self).frames,
            final(self).updates == 0 && final(self).frames == 0,
            final(self).clk == old(self).clk && final(self).wrap == old(self).wrap,
            final(self).wf(),
    {
        let r = (self.updates, self.frames);
        self.updates = 0;
        self.frames = 0;
        r
    }
}

/// A diagnostics report is due when more than one full second of real time
/// has passed since the report timer's mark.
pub fn should_report(elapsed_s: u64) -> (r: bool)
    ensures
        r == (elapsed_s > 1),
{
    elapsed_s > 1
}

/// The decimal digit characters of `n`, most significant first.
pub open spec fn digit_char(d: int) -> char {
    if d == 0 {
        '0'
    } else if d == 1 {
        '1'
    } else if d == 2 {
        '2'
    } else if d == 3 {
        '3'
    } else if d == 4 {
        '4'
    } else if d == 5 {
        '5'
    } else if d == 6 {
        '6'
    } else if d == 7 {
        '7'
    } else if d == 8 {
        '8'
    } else {
        '9'
    }
}

pub open spec fn dec_seq(n: nat) -> Seq<char>
    decreases n,
{
    if n < 10 {
        seq![digit_char(n as int)]
    } else {
        dec_seq(n / 10).push(digit_char((n % 10) as int))
    }
}

fn push_digit(s: &mut String, d: u32)
    requires
        d < 10,
    ensures
        final(s)@ == old(s)@.push(digit_char(d as int)),
{
    if d == 0 {
        s.append("0");
        proof {
            reveal_strlit("0");
            assert(final(s)@ =~= old(s)@.push('0'));
        }
    } else if d == 1 {
        s.append("1");
        proof {
            reveal_strlit("1");
            assert(final(s)@ =~= old(s)@.push('1'));
        }
    } else if d == 2 {
        s.append("2");
        proof {
            reveal_strlit("2");
            assert(final(s)@ =~= old(s)@.push('2'));
        }
    } else if d == 3 {
        s.append("3");
        proof {
            reveal_strlit("3");
            assert(final(s)@ =~= old(s)@.push('3'));
        }
    } else if d == 4 {
        s.append("4");
        proof {
            reveal_strlit("4");
            assert(final(s)@ =~= old(s)@.push('4'));
        }
    } else if d == 5 {
        s.append("5");
        proof {
            reveal_strlit("5");
            assert(final(s)@ =~= old(s)@.push('5'));
        }
    } else if d == 6 {
        s.append("6");
        proof {
            reveal_strlit("6");
            assert(final(s)@ =~= old(s)@.push('6'));
        }
    } else if d == 7 {
        s.append("7");
        proof {
            reveal_strlit("7");
            assert(final(s)@ =~= old(s)@.push('7'));
        }
    } else if d == 8 {
        s.append("8");
        proof {
            reveal_strlit("8");
            assert(final(s)@ =~= old(s)@.push('8'));
        }
    } else {
        s.append("9");
        proof {
            reveal_strlit("9");
            assert(final(s)@ =~= old(s)@.push('9'));
        }
    }
}

/// Decimal rendering of `n`, exactly the digits `dec_seq` describes.
pub fn u32_decimal(n: u32) -> (s: String)
    ensures
        s@ == dec_seq(n as nat),
    decreases n,
{
    if n < 10 {
        let mut s = String::new();
        push_digit(&mut s, n);
        proof {
            assert(s@ =~= seq![digit_char(n as int)]);
        }
        s
    } else {
        let mut s = u32_decimal(n / 10);
        push_digit(&mut s, n % 10);
        proof {
            assert(s@ =~= dec_seq((n / 10) as nat).push(digit_char((n % 10) as int)));
        }
        s
    }
}

/// The window-title diagnostics line: `<title> | Updates: <n> | FPS: <n>`.
pub fn build_title(title: &str, updates: u32, frames: u32) -> (s: String)
    ensures
        s@ == title@ + " | Updates: "@ + dec_seq(updates as nat) + " | FPS: "@ + dec_seq(
            frames as nat,
        ),
{
    let mut s = title.to_owned();
    s.append(" | Updates: ");
    let upd = u32_decimal(updates);
    s.append(upd.as_str());
    s.append(" | FPS: ");
    let fps = u32_decimal(frames);
    s.append(fps.as_str());
    proof {
        assert(s@ =~= title@ + " | Updates: "@ + dec_seq(updates as nat) + " | FPS: "@ + dec_seq(
            frames as nat,
        ));
    }
    s
}

} // verus!

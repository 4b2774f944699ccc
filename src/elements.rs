use vstd::prelude::*;
use vstd::string::StringSliceAdditionalSpecFns;
use vstd::utf8::encode_utf8;

verus! {

/// Names at least this many bytes long are cut to this many characters.
pub const MAX_NAME_LEN: usize = 30;

/// A name as shown: kept when it is shorter than the limit in bytes, else its
/// first characters up to the limit followed by an ellipsis.
pub open spec fn shown_name(name: Seq<char>, byte_len: nat) -> Seq<char> {
    if byte_len < MAX_NAME_LEN {
        name
    } else if name.len() < MAX_NAME_LEN {
        name + seq!['…']
    } else {
        name.take(MAX_NAME_LEN as int) + seq!['…']
    }
}

/// Shortens a long output name for display.
pub fn substring_name(name: String) -> (r: String)
    ensures
        r@ == shown_name(name@, (encode_utf8(name@).len() as usize) as nat),
{
    let text = name.as_str();
    assert(text.spec_bytes() == encode_utf8(name@));
    if text.len() < MAX_NAME_LEN {
        return name;
    }
    let count = name.as_str().unicode_len();
    let take = if count < MAX_NAME_LEN {
        count
    } else {
        MAX_NAME_LEN
    };
    let mut r = String::from_str(name.as_str().substring_char(0, take));
    proof {
        reveal_strlit("…");
    }
    r.append("…");
    assert(name@.take(count as int) =~= name@);
    r
}

/// The icon name of the mute button.
pub fn mute_button_icon(muted: bool) -> (r: &'static str)
    ensures
        muted ==> r@ == "audio-volume-muted"@,
        !muted ==> r@ == "audio-volume-high"@,
{
    if muted {
        "audio-volume-muted"
    } else {
        "audio-volume-high"
    }
}

/// The decimal digit character for `d`.
pub open spec fn digit_char(d: nat) -> char {
    if d == 0 {
        '0'
    } else if d == 1 {
        '1'
    } else if d == 2 {
        '2'
    } else if d == 3 {
        '3'
    } else if d == 4 {
        '4'
    } else if d == 5 {
        '5'
    } else if d == 6 {
        '6'
    } else if d == 7 {
        '7'
    } else if d == 8 {
        '8'
    } else {
        '9'
    }
}

/// The decimal writing of `n`, without leading zeros.
pub open spec fn decimal(n: nat) -> Seq<char>
    decreases n,
{
    if n < 10 {
        seq![digit_char(n)]
    } else {
        decimal(n / 10) + seq![digit_char(n % 10)]
    }
}

/// The writing of a whole percentage, sign included.
pub open spec fn percent_text(v: int) -> Seq<char> {
    if v < 0 {
        seq!['-'] + decimal((-v) as nat) + seq!['%']
    } else {
        decimal(v as nat) + seq!['%']
    }
}

fn digit_str(d: u64) -> (r: &'static str)
    requires
        d < 10,
    ensures
        r@ == seq![digit_char(d as nat)],
{
    proof {
        reveal_strlit("0");
        reveal_strlit("1");
        reveal_strlit("2");
        reveal_strlit("3");
        reveal_strlit("4");
        reveal_strlit("5");
        reveal_strlit("6");
        reveal_strlit("7");
        reveal_strlit("8");
        reveal_strlit("9");
    }
    if d == 0 {
        "0"
    } else if d == 1 {
        "1"
    } else if d == 2 {
        "2"
    } else if d == 3 {
        "3"
    } else if d == 4 {
        "4"
    } else if d == 5 {
        "5"
    } else if d == 6 {
        "6"
    } else if d == 7 {
        "7"
    } else if d == 8 {
        "8"
    } else {
        "9"
    }
}

fn push_decimal(s: &mut String, n: u64)
    ensures
        final(s)@ == old(s)@ + decimal(n as nat),
    decreases n,
{
    if n >= 10 {
        push_decimal(s, n / 10);
    }
    s.append(digit_str(n % 10));
    assert(final(s)@ =~= old(s)@ + decimal(n as nat));
}

/// Formats a volume as a percentage.
pub trait Percentise {
    spec fn percent_spec(&self) -> Seq<char>;

    fn format_volume(&self) -> (r: String)
        ensures
            r@ == self.percent_spec(),
    ;
}

impl Percentise for i64 {
    open spec fn percent_spec(&self) -> Seq<char> {
        percent_text(*self as int)
    }

    fn format_volume(&self) -> (r: String) {
        proof {
            reveal_strlit("-");
            reveal_strlit("%");
            reveal_strlit("");
        }
        let v = *self;
        let mut s = if v < 0 {
            String::from_str("-")
        } else {
            String::from_str("")
        };
        let magnitude: u64 = if v < 0 {
            if v == i64::MIN {
                9223372036854775808u64
            } else {
                (-v) as u64
            }
        } else {
            v as u64
        };
        push_decimal(&mut s, magnitude);
        s.append("%");
        s
    }
}

/// Chains a computation that may fail onto an optional value.
pub trait MonadicOption<T>: Sized {
    /// The optional value itself.
    spec fn as_option(&self) -> Option<T>;

    fn bind<F: FnOnce(T) -> Option<U>, U>(self, f: F) -> (r: Option<U>)
        requires
            forall|x: T| self.as_option() == Some(x) ==> f.requires((x,)),
        ensures
            self.as_option() is None ==> r is None,
            forall|x: T| self.as_option() == Some(x) ==> f.ensures((x,), r),
    ;
}

impl<T> MonadicOption<T> for Option<T> {
    open spec fn as_option(&self) -> Option<T> {
        *self
    }

    fn bind<F: FnOnce(T) -> Option<U>, U>(self, f: F) -> (r: Option<U>) {
        match self {
            Some(x) => f(x),
            None => None,
        }
    }
}

/// The tray icon's level, by volume and muted flag.
#[derive(Clone, Copy, Debug, PartialEq, Eq, Structural)]
pub enum VolumeLevel {
    High,
    Medium,
    Low,
    Muted,
}

impl VolumeLevel {
    /// Muted wins; else above two thirds is high, above one third medium.
    pub fn from_volume(volume: u32, muted: bool) -> (r: VolumeLevel)
        ensures
            r == (if muted {
                VolumeLevel::Muted
            } else if volume > 66 {
                VolumeLevel::High
            } else if volume > 33 {
                VolumeLevel::Medium
            } else {
                VolumeLevel::Low
            }),
    {
        if muted {
            return VolumeLevel::Muted;
        }
        if volume > 66 {
            VolumeLevel::High
        } else if volume > 33 {
            VolumeLevel::Medium
        } else {
            VolumeLevel::Low
        }
    }

    /// The symbolic icon name of the level.
    pub fn to_icon(&self) -> (r: &'static str)
        ensures
            *self == VolumeLevel::High ==> r@ == "audio-volume-high-symbolic"@,
            *self == VolumeLevel::Medium ==> r@ == "audio-volume-medium-symbolic"@,
            *self == VolumeLevel::Low ==> r@ == "audio-volume-low-symbolic"@,
            *self == VolumeLevel::Muted ==> r@ == "audio-volume-muted-symbolic"@,
    {
        match self {
            VolumeLevel::High => "audio-volume-high-symbolic",
            VolumeLevel::Medium => "audio-volume-medium-symbolic",
            VolumeLevel::Low => "audio-volume-low-symbolic",
            VolumeLevel::Muted => "audio-volume-muted-symbolic",
        }
    }
}

} // verus!

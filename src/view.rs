//! The status-bar projection of a timer: `mm:ss` text, the state's name as
//! label and style class, and a count of completed sessions.
use vstd::prelude::*;

use crate::dispatcher::PomobarDispatcher;

verus! {

pub open spec fn digit_char(d: int) -> char {
    if d == 0 {
        '0'
    } else if d == 1 {
        '1'
    } else if d == 2 {
        '2'
    } else if d == 3 {
        '3'
    } else if d == 4 {
        '4'
    } else if d == 5 {
        '5'
    } else if d == 6 {
        '6'
    } else if d == 7 {
        '7'
    } else if d == 8 {
        '8'
    } else {
        '9'
    }
}

/// `n` in decimal, without leading zeros.
pub open spec fn decimal(n: nat) -> Seq<char>
    decreases n,
{
    if n < 10 {
        seq![digit_char(n as int)]
    } else {
        decimal(n / 10).push(digit_char((n % 10) as int))
    }
}

/// `n` in decimal, padded with a zero to two digits.
pub open spec fn two_digits(n: nat) -> Seq<char> {
    if n < 10 {
        seq!['0'] + decimal(n)
    } else {
        decimal(n)
    }
}

/// A remaining time in whole minutes and seconds: `mm:ss`.
pub open spec fn clock_spec(ms: nat) -> Seq<char> {
    two_digits(ms / 60_000) + seq![':'] + two_digits((ms % 60_000) / 1000)
}

pub open spec fn tooltip_spec(cycles: nat) -> Seq<char> {
    "Completed "@ + decimal(cycles) + " pomodoros."@
}

/// The members of the status-bar object, in the order they are written.
pub open spec fn view_fields(name: Seq<char>, remaining: nat, cycles: nat) -> Seq<
    (Seq<char>, Seq<char>),
> {
    seq![
        ("alt"@, name),
        ("class"@, name),
        ("text"@, clock_spec(remaining)),
        ("tooltip"@, tooltip_spec(cycles)),
    ]
}

pub open spec fn fields_view(fields: Seq<(String, String)>) -> Seq<(Seq<char>, Seq<char>)> {
    fields.map_values(|p: (String, String)| (p.0@, p.1@))
}

/// The compact JSON text of an object whose members are the given string
/// pairs, as serde_json writes it.
pub uninterp spec fn json_object_text(fields: Seq<(Seq<char>, Seq<char>)>) -> Seq<char>;

/// Relies on serde_json's `Map` and `Value`'s `Display`: the compact JSON text
/// of an object with these string members.
#[verifier::external_body]
fn json_object(fields: Vec<(String, String)>) -> (r: String)
    ensures
        r@ == json_object_text(fields_view(fields@)),
{
    let map: serde_json::Map<String, serde_json::Value> = fields.into_iter().map(
        |(k, v)| (k, serde_json::Value::String(v)),
    ).collect();
    serde_json::Value::Object(map).to_string()
}

fn digit_str(d: u64) -> (r: &'static str)
    requires
        d < 10,
    ensures
        r@ == seq![digit_char(d as int)],
{
    proof {
        reveal_strlit("0");
        reveal_strlit("1");
        reveal_strlit("2");
        reveal_strlit("3");
        reveal_strlit("4");
        reveal_strlit("5");
        reveal_strlit("6");
        reveal_strlit("7");
        reveal_strlit("8");
        reveal_strlit("9");
    }
    let r = if d == 0 {
        "0"
    } else if d == 1 {
        "1"
    } else if d == 2 {
        "2"
    } else if d == 3 {
        "3"
    } else if d == 4 {
        "4"
    } else if d == 5 {
        "5"
    } else if d == 6 {
        "6"
    } else if d == 7 {
        "7"
    } else if d == 8 {
        "8"
    } else {
        "9"
    };
    assert(r@ =~= seq![digit_char(d as int)]);
    r
}

fn push_decimal(s: &mut String, n: u64)
    ensures
        final(s)@ == old(s)@ + decimal(n as nat),
    decreases n,
{
    if n >= 10 {
        push_decimal(s, n / 10);
    }
    s.append(digit_str(n % 10));
    proof {
        if n >= 10 {
            assert(final(s)@ =~= old(s)@ + decimal(n as nat));
        } else {
            assert(final(s)@ =~= old(s)@ + decimal(n as nat));
        }
    }
}

fn push_two_digits(s: &mut String, n: u64)
    ensures
        final(s)@ == old(s)@ + two_digits(n as nat),
{
    if n < 10 {
        s.append("0");
        proof {
            reveal_strlit("0");
        }
    }
    push_decimal(s, n);
    assert(final(s)@ =~= old(s)@ + two_digits(n as nat));
}

/// A remaining time as `mm:ss`, in whole minutes and seconds.
pub fn clock_text(ms: i64) -> (r: String)
    requires
        ms >= 0,
    ensures
        r@ == clock_spec(ms as nat),
{
    let ms = ms as u64;
    let mut s = String::new();
    push_two_digits(&mut s, ms / 60_000);
    s.append(":");
    proof {
        reveal_strlit(":");
    }
    push_two_digits(&mut s, (ms % 60_000) / 1000);
    assert(s@ =~= clock_spec(ms as nat));
    s
}

/// `Completed N pomodoros.`
pub fn tooltip_text(cycles: u32) -> (r: String)
    ensures
        r@ == tooltip_spec(cycles as nat),
{
    let mut s = String::from_str("Completed ");
    push_decimal(&mut s, cycles as u64);
    s.append(" pomodoros.");
    assert(s@ =~= tooltip_spec(cycles as nat));
    s
}

impl PomobarDispatcher {
    /// The members of the status-bar object at `now`.
    pub fn view_fields_at(&self, now: i64) -> (r: Vec<(String, String)>)
        requires
            self.wf(),
        ensures
            fields_view(r@) == view_fields(
                self.name_spec(),
                self.remaining_spec_at(now) as nat,
                self.cycles_spec() as nat,
            ),
    {
        let remaining = self.get_remaining_time_at(now);
        let name = self.get_state_name();
        let r = vec![
            (String::from_str("alt"), String::from_str(name)),
            (String::from_str("class"), String::from_str(name)),
            (String::from_str("text"), clock_text(remaining)),
            (String::from_str("tooltip"), tooltip_text(self.get_cycles())),
        ];
        assert(fields_view(r@) =~= view_fields(
            self.name_spec(),
            self.remaining_spec_at(now) as nat,
            self.cycles_spec() as nat,
        ));
        r
    }

    /// The status-bar object at `now`, as JSON text.
    pub fn to_view_at(&self, now: i64) -> (r: String)
        requires
            self.wf(),
        ensures
            r@ == json_object_text(
                view_fields(
                    self.name_spec(),
                    self.remaining_spec_at(now) as nat,
                    self.cycles_spec() as nat,
                ),
            ),
    {
        json_object(self.view_fields_at(now))
    }

    /// The status-bar object now, as JSON text.
    pub fn to_view(&self) -> (r: String)
        requires
            self.wf(),
        ensures
            exists|now: i64|
                r@ == json_object_text(
                    view_fields(
                        self.name_spec(),
                        #[trigger] self.remaining_spec_at(now) as nat,
                        self.cycles_spec() as nat,
                    ),
                ),
    {
        let now = crate::timer::local_now_millis();
        self.to_view_at(now)
    }
}

} // verus!

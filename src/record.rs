use vstd::prelude::*;
use vstd::string::StringExecFns;

verus! {

/// The text of a natural number in decimal, most significant digit first.
pub open spec fn decimal(n: nat) -> Seq<char>
    decreases n,
{
    if n < 10 {
        seq![digit_char(n)]
    } else {
        decimal(n / 10) + seq![digit_char(n % 10)]
    }
}

pub open spec fn digit_char(d: nat) -> char {
    seq!['0', '1', '2', '3', '4', '5', '6', '7', '8', '9'][d as int]
}

/// What a weather record says, as plain values.
pub ghost struct WeatherView {
    pub temp_c: Seq<char>,
    pub wind_kph: Seq<char>,
    pub humidity_percent: u8,
    pub clouds_percent: u8,
}

/// Current conditions at one place.
///
/// The two readings are kept as the decimal text that the upstream number
/// renders to; the two percentages lie in `0..=100`.
pub struct WeatherData {
    temp_c: String,
    wind_kph: String,
    humidity_percent: u8,
    clouds_percent: u8,
}

impl View for WeatherData {
    type V = WeatherView;

    closed spec fn view(&self) -> WeatherView {
        WeatherView {
            temp_c: self.temp_c@,
            wind_kph: self.wind_kph@,
            humidity_percent: self.humidity_percent,
            clouds_percent: self.clouds_percent,
        }
    }
}

impl WeatherView {
    pub open spec fn wf(self) -> bool {
        self.humidity_percent <= 100 && self.clouds_percent <= 100
    }

    /// The record in its four-line text form.
    pub open spec fn rendered(self) -> Seq<char> {
        "temperature: "@ + self.temp_c + "\n"@
            + "wind in kph: "@ + self.wind_kph + "\n"@
            + "humidity: "@ + decimal(self.humidity_percent as nat) + "%\n"@
            + "cloud cover: "@ + decimal(self.clouds_percent as nat) + "%\n"@
    }
}

fn digit_text(d: u8) -> (r: &'static str)
    requires
        d < 10,
    ensures
        r@ == seq![digit_char(d as nat)],
{
    proof {
        reveal_strlit("0");
        reveal_strlit("1");
        reveal_strlit("2");
        reveal_strlit("3");
        reveal_strlit("4");
        reveal_strlit("5");
        reveal_strlit("6");
        reveal_strlit("7");
        reveal_strlit("8");
        reveal_strlit("9");
    }
    let r = match d {
        0 => "0",
        1 => "1",
        2 => "2",
        3 => "3",
        4 => "4",
        5 => "5",
        6 => "6",
        7 => "7",
        8 => "8",
        _ => "9",
    };
    assert(r@ =~= seq![digit_char(d as nat)]);
    r
}

/// Appends the decimal text of `n` to `s`.
fn push_decimal(s: &mut String, n: u8)
    ensures
        final(s)@ == old(s)@ + decimal(n as nat),
{
    if n >= 100 {
        s.append(digit_text(n / 100));
        s.append(digit_text((n / 10) % 10));
        s.append(digit_text(n % 10));
        assert((n / 10) / 10 == n / 100);
        assert(decimal((n / 10) as nat) == decimal((n / 100) as nat) + seq![
            digit_char(((n / 10) % 10) as nat),
        ]);
        assert(decimal(n as nat) == decimal((n / 10) as nat) + seq![digit_char((n % 10) as nat)]);
    } else if n >= 10 {
        s.append(digit_text(n / 10));
        s.append(digit_text(n % 10));
        assert(decimal(n as nat) == decimal((n / 10) as nat) + seq![digit_char((n % 10) as nat)]);
    } else {
        s.append(digit_text(n));
    }
    assert(final(s)@ =~= old(s)@ + decimal(n as nat));
}

impl WeatherData {
    #[verifier::type_invariant]
    spec fn percentages_in_range(self) -> bool {
        self.humidity_percent <= 100 && self.clouds_percent <= 100
    }

    /// Builds a record from its four fields; `None` when a percentage
    /// exceeds 100.
    pub fn new(temp_c: String, wind_kph: String, humidity_percent: u8, clouds_percent: u8) -> (r:
        Option<WeatherData>)
        ensures
            r is Some <==> humidity_percent <= 100 && clouds_percent <= 100,
            r matches Some(d) ==> d@ == (WeatherView {
                temp_c: temp_c@,
                wind_kph: wind_kph@,
                humidity_percent,
                clouds_percent,
            }),
    {
        if humidity_percent <= 100 && clouds_percent <= 100 {
            Some(WeatherData { temp_c, wind_kph, humidity_percent, clouds_percent })
        } else {
            None
        }
    }

    pub fn temp_c(&self) -> (r: &str)
        ensures
            r@ == self@.temp_c,
    {
        self.temp_c.as_str()
    }

    pub fn wind_kph(&self) -> (r: &str)
        ensures
            r@ == self@.wind_kph,
    {
        self.wind_kph.as_str()
    }

    pub fn humidity_percent(&self) -> (r: u8)
        ensures
            r == self@.humidity_percent,
            r <= 100,
    {
        proof {
            use_type_invariant(self);
        }
        self.humidity_percent
    }

    pub fn clouds_percent(&self) -> (r: u8)
        ensures
            r == self@.clouds_percent,
            r <= 100,
    {
        proof {
            use_type_invariant(self);
        }
        self.clouds_percent
    }

    /// The record in its four-line text form, one `name: value` line per field.
    pub fn to_string(&self) -> (r: String)
        ensures
            r@ == self@.rendered(),
    {
        let mut s = String::from_str("temperature: ");
        s.append(self.temp_c.as_str());
        s.append("\nwind in kph: ");
        s.append(self.wind_kph.as_str());
        s.append("\nhumidity: ");
        push_decimal(&mut s, self.humidity_percent);
        s.append("%\ncloud cover: ");
        push_decimal(&mut s, self.clouds_percent);
        s.append("%\n");
        proof {
            reveal_strlit("temperature: ");
            reveal_strlit("\nwind in kph: ");
            reveal_strlit("wind in kph: ");
            reveal_strlit("\nhumidity: ");
            reveal_strlit("humidity: ");
            reveal_strlit("%\ncloud cover: ");
            reveal_strlit("cloud cover: ");
            reveal_strlit("%\n");
            reveal_strlit("\n");
        }
        assert(s@ =~= self@.rendered());
        s
    }
}

} // verus!

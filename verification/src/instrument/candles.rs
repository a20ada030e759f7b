use vstd::prelude::*;

use crate::error::APIError;
use crate::utils::decimal::{bool_chars, bool_to_string, i32_to_string, int_digits};

verus! {

/// The width of one candle.
#[derive(Debug, Clone, Copy, PartialEq, Eq, Structural)]
pub enum Granularity {
    S5,
    S10,
    S15,
    S30,
    M1,
    M2,
    M4,
    M5,
    M10,
    M15,
    M30,
    H1,
    H2,
    H3,
    H4,
    H6,
    H8,
    H12,
    D,
    W,
    M,
}

impl Granularity {
    /// The code the API uses for this granularity.
    pub open spec fn spec_code(&self) -> Seq<char> {
        match *self {
            Granularity::S5 => "S5"@,
            Granularity::S10 => "S10"@,
            Granularity::S15 => "S15"@,
            Granularity::S30 => "S30"@,
            Granularity::M1 => "M1"@,
            Granularity::M2 => "M2"@,
            Granularity::M4 => "M4"@,
            Granularity::M5 => "M5"@,
            Granularity::M10 => "M10"@,
            Granularity::M15 => "M15"@,
            Granularity::M30 => "M30"@,
            Granularity::H1 => "H1"@,
            Granularity::H2 => "H2"@,
            Granularity::H3 => "H3"@,
            Granularity::H4 => "H4"@,
            Granularity::H6 => "H6"@,
            Granularity::H8 => "H8"@,
            Granularity::H12 => "H12"@,
            Granularity::D => "D"@,
            Granularity::W => "W"@,
            Granularity::M => "M"@,
        }
    }

    /// The granularity a code names, if any.
    pub open spec fn spec_from_chars(s: Seq<char>) -> Option<Granularity> {
        if s == "S5"@ {
            Some(Granularity::S5)
        } else if s == "S10"@ {
            Some(Granularity::S10)
        } else if s == "S15"@ {
            Some(Granularity::S15)
        } else if s == "S30"@ {
            Some(Granularity::S30)
        } else if s == "M1"@ {
            Some(Granularity::M1)
        } else if s == "M2"@ {
            Some(Granularity::M2)
        } else if s == "M4"@ {
            Some(Granularity::M4)
        } else if s == "M5"@ {
            Some(Granularity::M5)
        } else if s == "M10"@ {
            Some(Granularity::M10)
        } else if s == "M15"@ {
            Some(Granularity::M15)
        } else if s == "M30"@ {
            Some(Granularity::M30)
        } else if s == "H1"@ {
            Some(Granularity::H1)
        } else if s == "H2"@ {
            Some(Granularity::H2)
        } else if s == "H3"@ {
            Some(Granularity::H3)
        } else if s == "H4"@ {
            Some(Granularity::H4)
        } else if s == "H6"@ {
            Some(Granularity::H6)
        } else if s == "H8"@ {
            Some(Granularity::H8)
        } else if s == "H12"@ {
            Some(Granularity::H12)
        } else if s == "D"@ {
            Some(Granularity::D)
        } else if s == "W"@ {
            Some(Granularity::W)
        } else if s == "M"@ {
            Some(Granularity::M)
        } else {
            None
        }
    }

    /// The granularity `s` names, or the invalid-granularity error exactly
    /// when `s` names none.
    pub fn from_str(s: &str) -> (r: Result<Granularity, APIError>)
        ensures
            (match Granularity::spec_from_chars(s@) {
                Some(g) => r matches Ok(got) && got == g,
                None => r matches Err(e) && e matches APIError::Other(m) && m@
                    == "Invalid granularity"@,
            }),
    {
        if str_eq(s, "S5") {
            Ok(Granularity::S5)
        } else if str_eq(s, "S10") {
            Ok(Granularity::S10)
        } else if str_eq(s, "S15") {
            Ok(Granularity::S15)
        } else if str_eq(s, "S30") {
            Ok(Granularity::S30)
        } else if str_eq(s, "M1") {
            Ok(Granularity::M1)
        } else if str_eq(s, "M2") {
            Ok(Granularity::M2)
        } else if str_eq(s, "M4") {
            Ok(Granularity::M4)
        } else if str_eq(s, "M5") {
            Ok(Granularity::M5)
        } else if str_eq(s, "M10") {
            Ok(Granularity::M10)
        } else if str_eq(s, "M15") {
            Ok(Granularity::M15)
        } else if str_eq(s, "M30") {
            Ok(Granularity::M30)
        } else if str_eq(s, "H1") {
            Ok(Granularity::H1)
        } else if str_eq(s, "H2") {
            Ok(Granularity::H2)
        } else if str_eq(s, "H3") {
            Ok(Granularity::H3)
        } else if str_eq(s, "H4") {
            Ok(Granularity::H4)
        } else if str_eq(s, "H6") {
            Ok(Granularity::H6)
        } else if str_eq(s, "H8") {
            Ok(Granularity::H8)
        } else if str_eq(s, "H12") {
            Ok(Granularity::H12)
        } else if str_eq(s, "D") {
            Ok(Granularity::D)
        } else if str_eq(s, "W") {
            Ok(Granularity::W)
        } else if str_eq(s, "M") {
            Ok(Granularity::M)
        } else {
            Err(APIError::Other("Invalid granularity".to_owned()))
        }
    }

    /// The code the API uses for this granularity.
    pub fn to_string(&self) -> (r: String)
        ensures
            r@ == self.spec_code(),
    {
        let code: &str = match *self {
            Granularity::S5 => "S5",
            Granularity::S10 => "S10",
            Granularity::S15 => "S15",
            Granularity::S30 => "S30",
            Granularity::M1 => "M1",
            Granularity::M2 => "M2",
            Granularity::M4 => "M4",
            Granularity::M5 => "M5",
            Granularity::M10 => "M10",
            Granularity::M15 => "M15",
            Granularity::M30 => "M30",
            Granularity::H1 => "H1",
            Granularity::H2 => "H2",
            Granularity::H3 => "H3",
            Granularity::H4 => "H4",
            Granularity::H6 => "H6",
            Granularity::H8 => "H8",
            Granularity::H12 => "H12",
            Granularity::D => "D",
            Granularity::W => "W",
            Granularity::M => "M",
        };
        code.to_owned()
    }
}

/// Parsing a granularity's own code gives that granularity back.
pub proof fn lemma_granularity_code_round_trip(g: Granularity)
    ensures
        Granularity::spec_from_chars(g.spec_code()) == Some(g),
{
    reveal_strlit("S5");
    reveal_strlit("S10");
    reveal_strlit("S15");
    reveal_strlit("S30");
    reveal_strlit("M1");
    reveal_strlit("M2");
    reveal_strlit("M4");
    reveal_strlit("M5");
    reveal_strlit("M10");
    reveal_strlit("M15");
    reveal_strlit("M30");
    reveal_strlit("H1");
    reveal_strlit("H2");
    reveal_strlit("H3");
    reveal_strlit("H4");
    reveal_strlit("H6");
    reveal_strlit("H8");
    reveal_strlit("H12");
    reveal_strlit("D");
    reveal_strlit("W");
    reveal_strlit("M");
    assert("S5"@.len() == 2);
    assert("S5"@[0] == 'S');
    assert("S5"@[1] == '5');
    assert("S10"@.len() == 3);
    assert("S10"@[0] == 'S');
    assert("S10"@[1] == '1');
    assert("S10"@[2] == '0');
    assert("S15"@.len() == 3);
    assert("S15"@[0] == 'S');
    assert("S15"@[1] == '1');
    assert("S15"@[2] == '5');
    assert("S30"@.len() == 3);
    assert("S30"@[0] == 'S');
    assert("S30"@[1] == '3');
    assert("S30"@[2] == '0');
    assert("M1"@.len() == 2);
    assert("M1"@[0] == 'M');
    assert("M1"@[1] == '1');
    assert("M2"@.len() == 2);
    assert("M2"@[0] == 'M');
    assert("M2"@[1] == '2');
    assert("M4"@.len() == 2);
    assert("M4"@[0] == 'M');
    assert("M4"@[1] == '4');
    assert("M5"@.len() == 2);
    assert("M5"@[0] == 'M');
    assert("M5"@[1] == '5');
    assert("M10"@.len() == 3);
    assert("M10"@[0] == 'M');
    assert("M10"@[1] == '1');
    assert("M10"@[2] == '0');
    assert("M15"@.len() == 3);
    assert("M15"@[0] == 'M');
    assert("M15"@[1] == '1');
    assert("M15"@[2] == '5');
    assert("M30"@.len() == 3);
    assert("M30"@[0] == 'M');
    assert("M30"@[1] == '3');
    assert("M30"@[2] == '0');
    assert("H1"@.len() == 2);
    assert("H1"@[0] == 'H');
    assert("H1"@[1] == '1');
    assert("H2"@.len() == 2);
    assert("H2"@[0] == 'H');
    assert("H2"@[1] == '2');
    assert("H3"@.len() == 2);
    assert("H3"@[0] == 'H');
    assert("H3"@[1] == '3');
    assert("H4"@.len() == 2);
    assert("H4"@[0] == 'H');
    assert("H4"@[1] == '4');
    assert("H6"@.len() == 2);
    assert("H6"@[0] == 'H');
    assert("H6"@[1] == '6');
    assert("H8"@.len() == 2);
    assert("H8"@[0] == 'H');
    assert("H8"@[1] == '8');
    assert("H12"@.len() == 3);
    assert("H12"@[0] == 'H');
    assert("H12"@[1] == '1');
    assert("H12"@[2] == '2');
    assert("D"@.len() == 1);
    assert("D"@[0] == 'D');
    assert("W"@.len() == 1);
    assert("W"@[0] == 'W');
    assert("M"@.len() == 1);
    assert("M"@[0] == 'M');
    match g {
        Granularity::S5 => assert(Granularity::spec_from_chars("S5"@) == Some(Granularity::S5)),
        Granularity::S10 => assert(Granularity::spec_from_chars("S10"@) == Some(
            Granularity::S10,
        )),
        Granularity::S15 => assert(Granularity::spec_from_chars("S15"@) == Some(
            Granularity::S15,
        )),
        Granularity::S30 => assert(Granularity::spec_from_chars("S30"@) == Some(
            Granularity::S30,
        )),
        Granularity::M1 => assert(Granularity::spec_from_chars("M1"@) == Some(Granularity::M1)),
        Granularity::M2 => assert(Granularity::spec_from_chars("M2"@) == Some(Granularity::M2)),
        Granularity::M4 => assert(Granularity::spec_from_chars("M4"@) == Some(Granularity::M4)),
        Granularity::M5 => assert(Granularity::spec_from_chars("M5"@) == Some(Granularity::M5)),
        Granularity::M10 => assert(Granularity::spec_from_chars("M10"@) == Some(
            Granularity::M10,
        )),
        Granularity::M15 => assert(Granularity::spec_from_chars("M15"@) == Some(
            Granularity::M15,
        )),
        Granularity::M30 => assert(Granularity::spec_from_chars("M30"@) == Some(
            Granularity::M30,
        )),
        Granularity::H1 => assert(Granularity::spec_from_chars("H1"@) == Some(Granularity::H1)),
        Granularity::H2 => assert(Granularity::spec_from_chars("H2"@) == Some(Granularity::H2)),
        Granularity::H3 => assert(Granularity::spec_from_chars("H3"@) == Some(Granularity::H3)),
        Granularity::H4 => assert(Granularity::spec_from_chars("H4"@) == Some(Granularity::H4)),
        Granularity::H6 => assert(Granularity::spec_from_chars("H6"@) == Some(Granularity::H6)),
        Granularity::H8 => assert(Granularity::spec_from_chars("H8"@) == Some(Granularity::H8)),
        Granularity::H12 => assert(Granularity::spec_from_chars("H12"@) == Some(
            Granularity::H12,
        )),
        Granularity::D => assert(Granularity::spec_from_chars("D"@) == Some(Granularity::D)),
        Granularity::W => assert(Granularity::spec_from_chars("W"@) == Some(Granularity::W)),
        Granularity::M => assert(Granularity::spec_from_chars("M"@) == Some(Granularity::M)),
    }
}

/// Whether two strings hold the same characters.
fn str_eq(a: &str, b: &str) -> (r: bool)
    ensures
        r == (a@ == b@),
{
    let sa = a.to_owned();
    let sb = b.to_owned();
    sa == sb
}

/// The candles endpoint's payload.
#[derive(Debug)]
pub struct CandlesResponse {
    pub candles: Vec<Candle>,
    pub granularity: String,
    pub instrument: String,
}

/// One candle.
#[derive(Debug)]
pub struct Candle {
    pub complete: bool,
    pub mid: Mid,
    pub time: String,
    pub volume: i32,
}

/// A candle's midpoint prices, kept as the API's decimal text.
#[derive(Debug)]
pub struct Mid {
    pub c: String,
    pub h: String,
    pub l: String,
    pub o: String,
}

/// One recognized query option for the candles endpoint.
#[derive(Debug, Clone)]
pub enum CandleQueryParam {
    Count(i32),
    From(String),
    To(String),
    Granularity(Granularity),
    Price(String),
    Smooth(bool),
    IncludeFirst(bool),
    DailyAlignment(i32),
    WeeklyAlignment(i32),
    AlignmentTimezone(String),
}

impl CandleQueryParam {
    /// The text the option contributes to the query string.
    pub open spec fn spec_rendered(&self) -> Seq<char> {
        match *self {
            CandleQueryParam::Count(v) => int_digits(v as int),
            CandleQueryParam::From(ref s) => s@,
            CandleQueryParam::To(ref s) => s@,
            CandleQueryParam::Granularity(g) => g.spec_code(),
            CandleQueryParam::Price(ref s) => s@,
            CandleQueryParam::Smooth(b) => bool_chars(b),
            CandleQueryParam::IncludeFirst(b) => bool_chars(b),
            CandleQueryParam::DailyAlignment(v) => int_digits(v as int),
            CandleQueryParam::WeeklyAlignment(v) => int_digits(v as int),
            CandleQueryParam::AlignmentTimezone(ref s) => s@,
        }
    }

    /// The text the option contributes to the query string.
    pub fn to_string(&self) -> (r: String)
        ensures
            r@ == self.spec_rendered(),
    {
        match self {
            CandleQueryParam::Count(v) => i32_to_string(*v),
            CandleQueryParam::From(v) => v.clone(),
            CandleQueryParam::To(v) => v.clone(),
            CandleQueryParam::Granularity(v) => v.to_string(),
            CandleQueryParam::Price(v) => v.clone(),
            CandleQueryParam::Smooth(v) => bool_to_string(*v),
            CandleQueryParam::IncludeFirst(v) => bool_to_string(*v),
            CandleQueryParam::DailyAlignment(v) => i32_to_string(*v),
            CandleQueryParam::WeeklyAlignment(v) => i32_to_string(*v),
            CandleQueryParam::AlignmentTimezone(v) => v.clone(),
        }
    }
}

/// `params` with `value` bound to `key`: the first entry under `key` is
/// replaced, or a new entry is appended when none holds it.
pub open spec fn insert_param(
    params: Seq<(Seq<char>, Seq<char>)>,
    key: Seq<char>,
    value: Seq<char>,
) -> Seq<(Seq<char>, Seq<char>)>
    decreases params.len(),
{
    if params.len() == 0 {
        seq![(key, value)]
    } else if params[0].0 == key {
        seq![(key, value)] + params.drop_first()
    } else {
        seq![params[0]] + insert_param(params.drop_first(), key, value)
    }
}

/// No key is bound twice.
pub open spec fn keys_unique(params: Seq<(Seq<char>, Seq<char>)>) -> bool {
    forall|i: int, j: int| 0 <= i < j < params.len() ==> params[i].0 != params[j].0
}

/// The recognized query options of one candles request, each key bound once,
/// in the order first set.
#[derive(Debug)]
pub struct CandleQuery {
    parameters: Vec<(String, String)>,
}

impl CandleQuery {
    /// The keys and rendered values now set, in order.
    pub closed spec fn spec_params(&self) -> Seq<(Seq<char>, Seq<char>)> {
        self.parameters.deep_view()
    }

    /// Each key is bound at most once.
    pub open spec fn wf(&self) -> bool {
        keys_unique(self.spec_params())
    }

    /// A query with nothing set.
    pub fn new() -> (r: Self)
        ensures
            r.wf(),
            r.spec_params() == Seq::<(Seq<char>, Seq<char>)>::empty(),
    {
        let q = CandleQuery { parameters: Vec::new() };
        proof {
            assert(q.spec_params() =~= Seq::<(Seq<char>, Seq<char>)>::empty());
        }
        q
    }

    /// Bind `value`, rendered, to `key`: a key already set is overwritten in
    /// place, and a new key goes to the end.
    pub fn add_param(&mut self, key: &str, value: CandleQueryParam)
        requires
            old(self).wf(),
        ensures
            final(self).wf(),
            final(self).spec_params() == insert_param(
                old(self).spec_params(),
                key@,
                value.spec_rendered(),
            ),
    {
        let ghost params0 = self.parameters.deep_view();
        let rendered = value.to_string();
        let mut i: usize = 0;
        while i < self.parameters.len()
            invariant
                self.parameters.deep_view() == params0,
                params0 == old(self).spec_params(),
                keys_unique(params0),
                rendered@ == value.spec_rendered(),
                i <= self.parameters.len(),
                params0.len() == self.parameters.len(),
                forall|j: int| 0 <= j < i ==> #[trigger] params0[j].0 != key@,
            decreases self.parameters.len() - i,
        {
            let matches_key = str_eq(self.parameters[i].0.as_str(), key);
            if matches_key {
                let ghost prev = self.parameters@;
                self.parameters.set(i, (key.to_owned(), rendered));
                proof {
                    assert forall|j: int|
                        0 <= j < params0.len() implies self.parameters.deep_view()[j] == params0
                        .update(i as int, (key@, value.spec_rendered()))[j] by {
                        if j == i {
                            assert(self.parameters@[j].0@ == key@);
                            assert(self.parameters@[j].1@ == value.spec_rendered());
                        } else {
                            assert(self.parameters@[j] == prev[j]);
                            assert(params0[j] == (prev[j].0@, prev[j].1@));
                        }
                    }
                    assert(self.parameters.deep_view() =~= params0.update(
                        i as int,
                        (key@, value.spec_rendered()),
                    ));
                    lemma_insert_param_update(params0, key@, value.spec_rendered(), i as int);
                    lemma_insert_keeps_keys(params0, key@, value.spec_rendered());
                }
                return ;
            }
            i = i + 1;
        }
        let ghost prev = self.parameters@;
        self.parameters.push((key.to_owned(), rendered));
        proof {
            assert forall|j: int|
                0 <= j < params0.len() + 1 implies self.parameters.deep_view()[j] == params0.push(
                (key@, value.spec_rendered()),
            )[j] by {
                if j < params0.len() {
                    assert(self.parameters@[j] == prev[j]);
                } else {
                    assert(self.parameters@[j].0@ == key@);
                }
            }
            assert(self.parameters.deep_view() =~= params0.push((key@, value.spec_rendered())));
            lemma_insert_param_append(params0, key@, value.spec_rendered());
            lemma_insert_keeps_keys(params0, key@, value.spec_rendered());
        }
    }

    /// The keys and rendered values now set, in order.
    pub fn build(&self) -> (r: Vec<(String, String)>)
        ensures
            r.deep_view() == self.spec_params(),
    {
        crate::utils::clonable_request::clone_headers(&self.parameters)
    }
}

/// Overwriting the first entry under a key is what `insert_param` does when
/// the key is already bound there and nowhere earlier.
proof fn lemma_insert_param_update(
    params: Seq<(Seq<char>, Seq<char>)>,
    key: Seq<char>,
    value: Seq<char>,
    i: int,
)
    requires
        0 <= i < params.len(),
        params[i].0 == key,
        forall|j: int| 0 <= j < i ==> #[trigger] params[j].0 != key,
    ensures
        insert_param(params, key, value) == params.update(i, (key, value)),
    decreases i,
{
    if i == 0 {
        assert(insert_param(params, key, value) =~= params.update(0, (key, value)));
    } else {
        lemma_insert_param_update(params.drop_first(), key, value, i - 1);
        assert(insert_param(params, key, value) =~= params.update(i, (key, value)));
    }
}

/// Appending is what `insert_param` does when no entry holds the key.
proof fn lemma_insert_param_append(
    params: Seq<(Seq<char>, Seq<char>)>,
    key: Seq<char>,
    value: Seq<char>,
)
    requires
        forall|j: int| 0 <= j < params.len() ==> #[trigger] params[j].0 != key,
    ensures
        insert_param(params, key, value) == params.push((key, value)),
    decreases params.len(),
{
    if params.len() == 0 {
        assert(insert_param(params, key, value) =~= params.push((key, value)));
    } else {
        lemma_insert_param_append(params.drop_first(), key, value);
        assert(insert_param(params, key, value) =~= params.push((key, value)));
    }
}

/// Binding a key anew never makes a key double: uniqueness survives
/// `insert_param`.
proof fn lemma_insert_keeps_keys(
    params: Seq<(Seq<char>, Seq<char>)>,
    key: Seq<char>,
    value: Seq<char>,
)
    requires
        keys_unique(params),
    ensures
        keys_unique(insert_param(params, key, value)),
    decreases params.len(),
{
    if params.len() == 0 {
    } else if params[0].0 == key {
        let r = seq![(key, value)] + params.drop_first();
        assert forall|i: int, j: int| 0 <= i < j < r.len() implies r[i].0 != r[j].0 by {
            assert(params[i] == r[i] || r[i] == (key, value));
            assert(r[j] == params[j]);
        }
    } else {
        lemma_insert_keeps_keys(params.drop_first(), key, value);
        let rest = insert_param(params.drop_first(), key, value);
        let r = seq![params[0]] + rest;
        assert forall|i: int, j: int| 0 <= i < j < r.len() implies r[i].0 != r[j].0 by {
            if i == 0 {
                lemma_insert_member(params.drop_first(), key, value, j - 1);
            }
        }
    }
}

/// Every key in `insert_param`'s result was in the input or is the new key.
proof fn lemma_insert_member(
    params: Seq<(Seq<char>, Seq<char>)>,
    key: Seq<char>,
    value: Seq<char>,
    j: int,
)
    requires
        0 <= j < insert_param(params, key, value).len(),
    ensures
        insert_param(params, key, value)[j].0 == key || (exists|m: int|
            0 <= m < params.len() && #[trigger] params[m].0 == insert_param(
                params,
                key,
                value,
            )[j].0),
    decreases params.len(),
{
    if params.len() == 0 {
    } else if params[0].0 == key {
        if j > 0 {
            assert(params[j] == insert_param(params, key, value)[j]);
        }
    } else {
        if j > 0 {
            lemma_insert_member(params.drop_first(), key, value, j - 1);
            let r0 = insert_param(params.drop_first(), key, value);
            if r0[j - 1].0 != key {
                let target = r0[j - 1].0;
                let m0 = choose|m: int|
                    0 <= m < params.drop_first().len() && #[trigger] params.drop_first()[m].0
                        == target;
                assert(params[m0 + 1].0 == insert_param(params, key, value)[j].0);
            }
        } else {
            assert(params[0].0 == insert_param(params, key, value)[0].0);
        }
    }
}

/// What the query options contribute to the candles URL: each entry as
/// `key=value&`, in order.
pub open spec fn query_string(params: Seq<(Seq<char>, Seq<char>)>) -> Seq<char>
    decreases params.len(),
{
    if params.len() == 0 {
        Seq::empty()
    } else {
        query_string(params.drop_last()) + params.last().0 + "="@ + params.last().1 + "&"@
    }
}

/// The compute stage of fetching candles: the path of the candles endpoint
/// for `instrument`, under the client's base URL, with every query option
/// appended.
pub fn candles_path(instrument: &str, query: &Vec<(String, String)>) -> (r: String)
    ensures
        r@ == "/v3/instruments/"@ + instrument@ + "/candles?"@ + query_string(query.deep_view()),
{
    let ghost params = query.deep_view();
    let ghost head = "/v3/instruments/"@ + instrument@ + "/candles?"@;
    let mut path = String::from_str("/v3/instruments/");
    path.append(instrument);
    path.append("/candles?");
    let mut i: usize = 0;
    proof {
        assert(params.take(0) =~= Seq::<(Seq<char>, Seq<char>)>::empty());
    }
    while i < query.len()
        invariant
            params == query.deep_view(),
            head == "/v3/instruments/"@ + instrument@ + "/candles?"@,
            i <= query.len(),
            params.len() == query.len(),
            path@ == head + query_string(params.take(i as int)),
        decreases query.len() - i,
    {
        let (key, value) = &query[i];
        path.append(key.as_str());
        path.append("=");
        path.append(value.as_str());
        path.append("&");
        proof {
            assert(params.take(i + 1).drop_last() =~= params.take(i as int));
            assert(params.take(i + 1).last() == params[i as int]);
            assert(params[i as int].0 == key@ && params[i as int].1 == value@);
            assert(path@ =~= head + query_string(params.take(i + 1)));
        }
        i = i + 1;
    }
    proof {
        assert(params.take(params.len() as int) =~= params);
    }
    path
}

} // verus!

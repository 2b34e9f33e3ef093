use vstd::prelude::*;
use vstd::string::StringExecFns;

verus! {

/// Everything that can go wrong with a batch request before, around, or
/// after its simulation.
#[derive(Debug)]
pub enum SimulateError {
    AddressParseError(String),
    Uint256ParseError(String),
    InvalidOperation(String),
    ChainNotFound(u64),
    HexDecodeError(String),
    AnyhowError(String),
    SimulationError(String),
    /// The wait for a job's result outlived its time limit: an error class of
    /// its own, apart from the simulation-error class.
    TimeoutError,
}

/// The ghost shape of a `SimulateError`.
pub enum ErrModel {
    AddressParse(Seq<char>),
    Uint256Parse(Seq<char>),
    InvalidOperation(Seq<char>),
    ChainNotFound(u64),
    HexDecode(Seq<char>),
    Anyhow(Seq<char>),
    Simulation(Seq<char>),
    Timeout,
}

impl View for SimulateError {
    type V = ErrModel;

    open spec fn view(&self) -> ErrModel {
        match self {
            SimulateError::AddressParseError(s) => ErrModel::AddressParse(s@),
            SimulateError::Uint256ParseError(s) => ErrModel::Uint256Parse(s@),
            SimulateError::InvalidOperation(s) => ErrModel::InvalidOperation(s@),
            SimulateError::ChainNotFound(id) => ErrModel::ChainNotFound(*id),
            SimulateError::HexDecodeError(s) => ErrModel::HexDecode(s@),
            SimulateError::AnyhowError(s) => ErrModel::Anyhow(s@),
            SimulateError::SimulationError(s) => ErrModel::Simulation(s@),
            SimulateError::TimeoutError => ErrModel::Timeout,
        }
    }
}

impl From<String> for SimulateError {
    /// Plain strings arrive as the catch-all error class.
    fn from(s: String) -> (r: SimulateError) {
        SimulateError::AnyhowError(s)
    }
}

impl vstd::std_specs::convert::FromSpecImpl<String> for SimulateError {
    open spec fn obeys_from_spec() -> bool {
        true
    }

    open spec fn from_spec(s: String) -> SimulateError {
        SimulateError::AnyhowError(s)
    }
}

/// The character of one decimal digit.
pub open spec fn dec_digit_char(d: nat) -> char
    recommends
        d < 10,
{
    if d == 0 { '0' }
    else if d == 1 { '1' }
    else if d == 2 { '2' }
    else if d == 3 { '3' }
    else if d == 4 { '4' }
    else if d == 5 { '5' }
    else if d == 6 { '6' }
    else if d == 7 { '7' }
    else if d == 8 { '8' }
    else { '9' }
}

/// The decimal rendering of a number, most significant digit first, with no
/// leading zero except for zero itself.
pub open spec fn dec_chars(n: nat) -> Seq<char>
    decreases n,
{
    if n < 10 {
        seq![dec_digit_char(n)]
    } else {
        dec_chars(n / 10).push(dec_digit_char(n % 10))
    }
}

fn digit_str(d: u64) -> (r: String)
    requires
        d < 10,
    ensures
        r@ == seq![dec_digit_char(d as nat)],
{
    if d == 0 {
        proof { reveal_strlit("0"); }
        let r = "0".to_owned();
        assert(r@ =~= seq![dec_digit_char(0)]);
        r
    } else if d == 1 {
        proof { reveal_strlit("1"); }
        let r = "1".to_owned();
        assert(r@ =~= seq![dec_digit_char(1)]);
        r
    } else if d == 2 {
        proof { reveal_strlit("2"); }
        let r = "2".to_owned();
        assert(r@ =~= seq![dec_digit_char(2)]);
        r
    } else if d == 3 {
        proof { reveal_strlit("3"); }
        let r = "3".to_owned();
        assert(r@ =~= seq![dec_digit_char(3)]);
        r
    } else if d == 4 {
        proof { reveal_strlit("4"); }
        let r = "4".to_owned();
        assert(r@ =~= seq![dec_digit_char(4)]);
        r
    } else if d == 5 {
        proof { reveal_strlit("5"); }
        let r = "5".to_owned();
        assert(r@ =~= seq![dec_digit_char(5)]);
        r
    } else if d == 6 {
        proof { reveal_strlit("6"); }
        let r = "6".to_owned();
        assert(r@ =~= seq![dec_digit_char(6)]);
        r
    } else if d == 7 {
        proof { reveal_strlit("7"); }
        let r = "7".to_owned();
        assert(r@ =~= seq![dec_digit_char(7)]);
        r
    } else if d == 8 {
        proof { reveal_strlit("8"); }
        let r = "8".to_owned();
        assert(r@ =~= seq![dec_digit_char(8)]);
        r
    } else {
        proof { reveal_strlit("9"); }
        let r = "9".to_owned();
        assert(r@ =~= seq![dec_digit_char(9)]);
        r
    }
}

/// Renders a number in decimal.
pub fn u64_to_string(n: u64) -> (r: String)
    ensures
        r@ == dec_chars(n as nat),
    decreases n,
{
    if n < 10 {
        digit_str(n)
    } else {
        let mut s = u64_to_string(n / 10);
        let d = digit_str(n % 10);
        s.append(d.as_str());
        assert(s@ =~= dec_chars(n as nat));
        s
    }
}

/// The one-line text of each error, class first, detail after.
pub open spec fn spec_message(e: ErrModel) -> Seq<char> {
    match e {
        ErrModel::AddressParse(s) => "Address parse error: "@ + s,
        ErrModel::Uint256Parse(s) => "Uint256 parse error: "@ + s,
        ErrModel::InvalidOperation(s) => "Invalid operation: "@ + s,
        ErrModel::ChainNotFound(id) => "Chain not found: "@ + dec_chars(id as nat),
        ErrModel::HexDecode(s) => "Hex decode error: "@ + s,
        ErrModel::Anyhow(s) => "Anyhow error: "@ + s,
        ErrModel::Simulation(s) => "Simulation error: "@ + s,
        ErrModel::Timeout => "Trace request timed out"@,
    }
}

impl SimulateError {
    /// The error as one line of text.
    pub fn message(&self) -> (r: String)
        ensures
            r@ == spec_message(self@),
    {
        match self {
            SimulateError::AddressParseError(s) => {
                let mut m = "Address parse error: ".to_owned();
                m.append(s.as_str());
                m
            },
            SimulateError::Uint256ParseError(s) => {
                let mut m = "Uint256 parse error: ".to_owned();
                m.append(s.as_str());
                m
            },
            SimulateError::InvalidOperation(s) => {
                let mut m = "Invalid operation: ".to_owned();
                m.append(s.as_str());
                m
            },
            SimulateError::ChainNotFound(id) => {
                let mut m = "Chain not found: ".to_owned();
                let d = u64_to_string(*id);
                m.append(d.as_str());
                m
            },
            SimulateError::HexDecodeError(s) => {
                let mut m = "Hex decode error: ".to_owned();
                m.append(s.as_str());
                m
            },
            SimulateError::AnyhowError(s) => {
                let mut m = "Anyhow error: ".to_owned();
                m.append(s.as_str());
                m
            },
            SimulateError::SimulationError(s) => {
                let mut m = "Simulation error: ".to_owned();
                m.append(s.as_str());
                m
            },
            SimulateError::TimeoutError => "Trace request timed out".to_owned(),
        }
    }
}

} // verus!

use vstd::prelude::*;
use vstd::string::*;

verus! {

/// The role that the engine plays in the network.
#[derive(Debug, Clone, Copy, PartialEq, Eq, Structural)]
pub enum TendermintMode {
    Validator,
    Full,
    Seed,
}

pub open spec fn mode_name(mode: TendermintMode) -> Seq<char> {
    match mode {
        TendermintMode::Validator => "validator"@,
        TendermintMode::Full => "full"@,
        TendermintMode::Seed => "seed"@,
    }
}

impl TendermintMode {
    /// The mode's name on the engine's command line.
    pub fn to_str(&self) -> (r: &'static str)
        ensures
            r@ == mode_name(*self),
    {
        match self {
            TendermintMode::Validator => "validator",
            TendermintMode::Full => "full",
            TendermintMode::Seed => "seed",
        }
    }
}

/// The views of a list of strings.
pub open spec fn views(v: Seq<String>) -> Seq<Seq<char>> {
    v.map_values(|s: String| s@)
}

fn owned(s: &str) -> (r: String)
    ensures
        r@ == s@,
{
    String::from_str(s)
}

/// Arguments of the engine's init command.
pub fn init_args(mode: TendermintMode, home: &str) -> (r: Vec<String>)
    ensures
        views(r@) == seq!["init"@, mode_name(mode), "--home"@, home@],
{
    let r = vec![owned("init"), owned(mode.to_str()), owned("--home"), owned(home)];
    assert(views(r@) =~= seq!["init"@, mode_name(mode), "--home"@, home@]);
    r
}

/// Arguments of the engine's start command.
pub fn start_args(proxy_app_address: &str, home: &str) -> (r: Vec<String>)
    ensures
        views(r@) == seq!["start"@, "--proxy_app"@, proxy_app_address@, "--home"@, home@],
{
    let r = vec![owned("start"), owned("--proxy_app"), owned(proxy_app_address), owned("--home"), owned(home)];
    assert(views(r@) =~= seq!["start"@, "--proxy_app"@, proxy_app_address@, "--home"@, home@]);
    r
}

/// Arguments of the engine's command that erases all its state.
pub fn reset_args(home: &str) -> (r: Vec<String>)
    ensures
        views(r@) == seq!["reset-state"@, "unsafe-all"@, "--home"@, home@],
{
    let r = vec![owned("reset-state"), owned("unsafe-all"), owned("--home"), owned(home)];
    assert(views(r@) =~= seq!["reset-state"@, "unsafe-all"@, "--home"@, home@]);
    r
}

/// Arguments of the engine's command that rolls its state back one height.
pub fn rollback_args(home: &str) -> (r: Vec<String>)
    ensures
        views(r@) == seq!["rollback"@, "unsafe-all"@, "--home"@, home@],
{
    let r = vec![owned("rollback"), owned("unsafe-all"), owned("--home"), owned(home)];
    assert(views(r@) =~= seq!["rollback"@, "unsafe-all"@, "--home"@, home@]);
    r
}

/// The signing state of a validator that has signed nothing yet.
#[derive(Debug, Clone, Copy, PartialEq, Eq, Structural)]
pub struct ValidatorState {
    pub height: u64,
    pub round: i32,
    pub step: i8,
}

impl ValidatorState {
    /// The state written when a validator is set up: height, round and step
    /// all zero.
    pub fn initial() -> (r: ValidatorState)
        ensures
            r.height == 0 && r.round == 0 && r.step == 0,
    {
        ValidatorState { height: 0, round: 0, step: 0 }
    }
}

} // verus!

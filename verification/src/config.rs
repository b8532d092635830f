//! Settings: run mode, side choice, canvas size limits, and the command line.
use vstd::prelude::*;

use crate::effects::{lang_named, Lang, Side, UnknownName};
use crate::text::{ascii_lower, eq_lower, parse_u16, parse_u32, parse_unsigned, str_eq, IntErrorKind};

verus! {

pub const DEFAULT_GSI_PORT: u16 = 57534;

pub const MAX_CANVAS_DIMENSION: u32 = 16384;

/// Where the kills come from: the game's reports or the demo loop.
#[derive(Debug, Clone, Copy, PartialEq, Eq, Structural)]
pub enum RunMode {
    Gsi,
    Demo,
}

/// The side the voice lines are for: detected from the game, or fixed.
#[derive(Debug, Clone, Copy, PartialEq, Eq, Structural)]
pub enum SidePreference {
    Auto,
    Ct,
    T,
}

/// The side preference that a name denotes: `auto`, `ct` or `t`, in any ASCII case.
pub open spec fn side_preference_named(s: Seq<char>) -> Option<SidePreference> {
    let l = ascii_lower(s);
    if l == "auto"@ {
        Some(SidePreference::Auto)
    } else if l == "ct"@ {
        Some(SidePreference::Ct)
    } else if l == "t"@ {
        Some(SidePreference::T)
    } else {
        None
    }
}

/// The side that a preference gives, with `detected` the side the game reports.
pub open spec fn resolved_side(p: SidePreference, detected: Option<Side>) -> Option<Side> {
    match p {
        SidePreference::Auto => detected,
        SidePreference::Ct => Some(Side::Ct),
        SidePreference::T => Some(Side::T),
    }
}

impl SidePreference {
    pub fn resolve(self, detected: Option<Side>) -> (r: Option<Side>)
        ensures
            r == resolved_side(self, detected),
    {
        match self {
            SidePreference::Auto => detected,
            SidePreference::Ct => Some(Side::Ct),
            SidePreference::T => Some(Side::T),
        }
    }

    pub fn parse(s: &str) -> (r: Result<SidePreference, UnknownName>)
        ensures
            match r {
                Ok(p) => side_preference_named(s@) == Some(p),
                Err(e) => side_preference_named(s@) is None && e.text@ == s@,
            },
    {
        if eq_lower(s, "auto") {
            Ok(SidePreference::Auto)
        } else if eq_lower(s, "ct") {
            Ok(SidePreference::Ct)
        } else if eq_lower(s, "t") {
            Ok(SidePreference::T)
        } else {
            Err(UnknownName { text: s.to_owned() })
        }
    }
}

/// A canvas dimension kept where it lies in `1..=MAX_CANVAS_DIMENSION`, dropped otherwise.
pub open spec fn valid_dimension(value: Option<u32>) -> Option<u32> {
    match value {
        Some(v) => if 1 <= v <= MAX_CANVAS_DIMENSION {
            Some(v)
        } else {
            None
        },
        None => None,
    }
}

pub fn normalize_dimension(value: Option<u32>) -> (r: Option<u32>)
    ensures
        r == valid_dimension(value),
{
    match value {
        Some(v) => if 1 <= v && v <= MAX_CANVAS_DIMENSION {
            Some(v)
        } else {
            None
        },
        None => None,
    }
}


/// The usage text of the command line.
pub const HELP_TEXT: &'static str = "CounterFire 2\n\n\
     用法:\n\
     counterfire2                 打开窗口控制面板\n\
     counterfire2 --cli [--demo] [--port 57534] [--lang cn|en] [--side auto|CT|T] [--width px] [--height px] [--icon-scale 1.0] [--icon-x 0.5] [--icon-y 0.5] [--volume 1.0] [--kill-streak-reset 15] [--no-vsync]\n\n\
     --cli       使用控制台 fallback 模式\n\
     --demo      不等待 CS2 GSI，循环触发示例击杀特效\n\
     --port      CS2 GSI HTTP 监听端口，默认 57534\n\
     --lang      语音语言，默认 cn\n\
     --side      阵营选择，auto 为 GSI 自动识别，默认 auto\n\
     --width     Game Bar 画布宽度覆盖，不传则使用当前屏幕宽度\n\
     --height    Game Bar 画布高度覆盖，不传则使用当前屏幕高度\n\
     --icon-scale 击杀图标大小倍率，范围 0.5-2.0，默认 1.0\n\
     --icon-x    击杀图标水平位置，范围 0.0-1.0，默认 0.5\n\
     --icon-y    击杀图标垂直位置，范围 0.0-1.0，默认 0.5\n\
     --volume    音效音量倍率，范围 0.0-2.0，默认 1.0\n\
     --kill-streak-reset 连杀重置秒数，范围 1-120，默认 15\n\
     --no-vsync  不调用 DwmFlush，改为约 60 FPS 定时";

/// The usage text of the command line.
pub fn help_text() -> (r: &'static str)
    ensures
        r@ == HELP_TEXT@,
{
    HELP_TEXT
}

/// The settings that the command line gives as decimal fractions.
#[derive(Debug, Clone, Copy, PartialEq, Eq, Structural)]
pub enum FloatSetting {
    IconScale,
    IconX,
    IconY,
    Volume,
    KillStreakReset,
}

/// The options of the command line that take a value.
#[derive(Debug, Clone, Copy, PartialEq, Eq, Structural)]
pub enum CliFlag {
    Port,
    Lang,
    Side,
    Width,
    Height,
    Fraction(FloatSetting),
}

/// A fraction setting as written on the command line, left for the caller to
/// read as a number.
#[derive(Debug, Clone)]
pub struct FloatArg {
    pub setting: FloatSetting,
    pub value: String,
}

/// The settings read from the command line so far.
#[derive(Debug, Clone)]
pub struct CliOptions {
    pub mode: RunMode,
    pub port: u16,
    pub lang: Lang,
    pub side: SidePreference,
    pub width: Option<u32>,
    pub height: Option<u32>,
    pub vsync: bool,
    /// The fraction settings in the order given.
    pub fractions: Vec<FloatArg>,
}

/// Why the command line was refused.
#[derive(Debug, Clone)]
pub enum CliFailure {
    UnknownArgument(String),
    MissingValue(CliFlag),
    InvalidInteger(CliFlag, IntErrorKind),
    UnknownLang(String),
    UnknownSide(String),
}

/// How reading the command line ended: all read, help asked for, or refused.
#[derive(Debug, Clone)]
pub enum CliOutcome {
    Run,
    Help,
    Failed(CliFailure),
}

/// What the command line gave: the settings read up to where reading
/// stopped, and why it stopped.
#[derive(Debug, Clone)]
pub struct CliParse {
    pub options: CliOptions,
    pub outcome: CliOutcome,
}

/// The settings as values.
pub struct CliModel {
    pub mode: RunMode,
    pub port: u16,
    pub lang: Lang,
    pub side: SidePreference,
    pub width: Option<u32>,
    pub height: Option<u32>,
    pub vsync: bool,
    pub fractions: Seq<(FloatSetting, Seq<char>)>,
}

pub enum FailureModel {
    UnknownArgument(Seq<char>),
    MissingValue(CliFlag),
    InvalidInteger(CliFlag, IntErrorKind),
    UnknownLang(Seq<char>),
    UnknownSide(Seq<char>),
}

pub enum OutcomeModel {
    Run,
    Help,
    Failed(FailureModel),
}

pub open spec fn fractions_view(v: Seq<FloatArg>) -> Seq<(FloatSetting, Seq<char>)> {
    v.map_values(|f: FloatArg| (f.setting, f.value@))
}

pub open spec fn options_view(o: CliOptions) -> CliModel {
    CliModel {
        mode: o.mode,
        port: o.port,
        lang: o.lang,
        side: o.side,
        width: o.width,
        height: o.height,
        vsync: o.vsync,
        fractions: fractions_view(o.fractions@),
    }
}

pub open spec fn failure_view(f: CliFailure) -> FailureModel {
    match f {
        CliFailure::UnknownArgument(a) => FailureModel::UnknownArgument(a@),
        CliFailure::MissingValue(flag) => FailureModel::MissingValue(flag),
        CliFailure::InvalidInteger(flag, k) => FailureModel::InvalidInteger(flag, k),
        CliFailure::UnknownLang(a) => FailureModel::UnknownLang(a@),
        CliFailure::UnknownSide(a) => FailureModel::UnknownSide(a@),
    }
}

pub open spec fn outcome_view(o: CliOutcome) -> OutcomeModel {
    match o {
        CliOutcome::Run => OutcomeModel::Run,
        CliOutcome::Help => OutcomeModel::Help,
        CliOutcome::Failed(f) => OutcomeModel::Failed(failure_view(f)),
    }
}

/// The settings before the command line is read: the defaults.
pub open spec fn default_cli_model() -> CliModel {
    CliModel {
        mode: RunMode::Gsi,
        port: DEFAULT_GSI_PORT,
        lang: Lang::Cn,
        side: SidePreference::Auto,
        width: None,
        height: None,
        vsync: true,
        fractions: Seq::empty(),
    }
}

/// The option that an argument names and that takes a value.
pub open spec fn value_flag(a: Seq<char>) -> Option<CliFlag> {
    if a == "--port"@ {
        Some(CliFlag::Port)
    } else if a == "--lang"@ {
        Some(CliFlag::Lang)
    } else if a == "--side"@ {
        Some(CliFlag::Side)
    } else if a == "--width"@ {
        Some(CliFlag::Width)
    } else if a == "--height"@ {
        Some(CliFlag::Height)
    } else if a == "--icon-scale"@ {
        Some(CliFlag::Fraction(FloatSetting::IconScale))
    } else if a == "--icon-x"@ {
        Some(CliFlag::Fraction(FloatSetting::IconX))
    } else if a == "--icon-y"@ {
        Some(CliFlag::Fraction(FloatSetting::IconY))
    } else if a == "--volume"@ {
        Some(CliFlag::Fraction(FloatSetting::Volume))
    } else if a == "--kill-streak-reset"@ {
        Some(CliFlag::Fraction(FloatSetting::KillStreakReset))
    } else {
        None
    }
}

/// The settings after option `flag` with value `v`, or why `v` is refused.
pub open spec fn apply_value(m: CliModel, flag: CliFlag, v: Seq<char>) -> Result<CliModel, FailureModel> {
    match flag {
        CliFlag::Port => match parse_unsigned(v, u16::MAX as int) {
            Ok(n) => Ok(CliModel { port: n as u16, ..m }),
            Err(k) => Err(FailureModel::InvalidInteger(flag, k)),
        },
        CliFlag::Width => match parse_unsigned(v, u32::MAX as int) {
            Ok(n) => Ok(CliModel { width: Some(n as u32), ..m }),
            Err(k) => Err(FailureModel::InvalidInteger(flag, k)),
        },
        CliFlag::Height => match parse_unsigned(v, u32::MAX as int) {
            Ok(n) => Ok(CliModel { height: Some(n as u32), ..m }),
            Err(k) => Err(FailureModel::InvalidInteger(flag, k)),
        },
        CliFlag::Lang => match lang_named(v) {
            Some(l) => Ok(CliModel { lang: l, ..m }),
            None => Err(FailureModel::UnknownLang(v)),
        },
        CliFlag::Side => match side_preference_named(v) {
            Some(p) => Ok(CliModel { side: p, ..m }),
            None => Err(FailureModel::UnknownSide(v)),
        },
        CliFlag::Fraction(f) => Ok(CliModel { fractions: m.fractions.push((f, v)), ..m }),
    }
}

/// Reads the arguments from index `i` on, with `m` the settings so far.
pub open spec fn parse_from(args: Seq<Seq<char>>, i: int, m: CliModel) -> (CliModel, OutcomeModel)
    decreases args.len() - i,
{
    if i < 0 || i >= args.len() {
        (CliModel { width: valid_dimension(m.width), height: valid_dimension(m.height), ..m }, OutcomeModel::Run)
    } else {
        let a = args[i];
        if a == "--demo"@ {
            parse_from(args, i + 1, CliModel { mode: RunMode::Demo, ..m })
        } else if a == "--no-vsync"@ || a == "--unlocked"@ {
            parse_from(args, i + 1, CliModel { vsync: false, ..m })
        } else if a == "--help"@ || a == "-h"@ {
            (m, OutcomeModel::Help)
        } else {
            match value_flag(a) {
                None => (m, OutcomeModel::Failed(FailureModel::UnknownArgument(a))),
                Some(flag) => if i + 1 >= args.len() {
                    (m, OutcomeModel::Failed(FailureModel::MissingValue(flag)))
                } else {
                    match apply_value(m, flag, args[i + 1]) {
                        Ok(m2) => parse_from(args, i + 2, m2),
                        Err(f) => (m, OutcomeModel::Failed(f)),
                    }
                },
            }
        }
    }
}

/// The arguments that the options are read from: all but the program name,
/// with every `--cli` left out.
pub open spec fn without_cli(s: Seq<Seq<char>>) -> Seq<Seq<char>>
    decreases s.len(),
{
    if s.len() == 0 {
        s
    } else if s.last() == "--cli"@ {
        without_cli(s.drop_last())
    } else {
        without_cli(s.drop_last()).push(s.last())
    }
}

pub open spec fn user_args(args: Seq<Seq<char>>) -> Seq<Seq<char>> {
    if args.len() == 0 {
        args
    } else {
        without_cli(args.drop_first())
    }
}

pub open spec fn strings_view(v: Seq<String>) -> Seq<Seq<char>> {
    v.map_values(|s: String| s@)
}

/// The value option that `a` names.
fn value_flag_of(a: &str) -> (r: Option<CliFlag>)
    ensures
        r == value_flag(a@),
{
    if str_eq(a, "--port") {
        Some(CliFlag::Port)
    } else if str_eq(a, "--lang") {
        Some(CliFlag::Lang)
    } else if str_eq(a, "--side") {
        Some(CliFlag::Side)
    } else if str_eq(a, "--width") {
        Some(CliFlag::Width)
    } else if str_eq(a, "--height") {
        Some(CliFlag::Height)
    } else if str_eq(a, "--icon-scale") {
        Some(CliFlag::Fraction(FloatSetting::IconScale))
    } else if str_eq(a, "--icon-x") {
        Some(CliFlag::Fraction(FloatSetting::IconX))
    } else if str_eq(a, "--icon-y") {
        Some(CliFlag::Fraction(FloatSetting::IconY))
    } else if str_eq(a, "--volume") {
        Some(CliFlag::Fraction(FloatSetting::Volume))
    } else if str_eq(a, "--kill-streak-reset") {
        Some(CliFlag::Fraction(FloatSetting::KillStreakReset))
    } else {
        None
    }
}

/// Applies option `flag` with value `v` to `o`.
fn apply_value_exec(o: &mut CliOptions, flag: CliFlag, v: &str) -> (r: Result<(), CliFailure>)
    ensures
        match (r, apply_value(options_view(*old(o)), flag, v@)) {
            (Ok(()), Ok(m)) => options_view(*final(o)) == m,
            (Err(f), Err(g)) => failure_view(f) == g && options_view(*final(o)) == options_view(*old(o)),
            _ => false,
        },
{
    match flag {
        CliFlag::Port => match parse_u16(v) {
            Ok(n) => {
                o.port = n;
                Ok(())
            },
            Err(k) => Err(CliFailure::InvalidInteger(flag, k)),
        },
        CliFlag::Width => match parse_u32(v) {
            Ok(n) => {
                o.width = Some(n);
                Ok(())
            },
            Err(k) => Err(CliFailure::InvalidInteger(flag, k)),
        },
        CliFlag::Height => match parse_u32(v) {
            Ok(n) => {
                o.height = Some(n);
                Ok(())
            },
            Err(k) => Err(CliFailure::InvalidInteger(flag, k)),
        },
        CliFlag::Lang => match Lang::parse(v) {
            Ok(l) => {
                o.lang = l;
                Ok(())
            },
            Err(_) => Err(CliFailure::UnknownLang(v.to_owned())),
        },
        CliFlag::Side => match SidePreference::parse(v) {
            Ok(p) => {
                o.side = p;
                Ok(())
            },
            Err(_) => Err(CliFailure::UnknownSide(v.to_owned())),
        },
        CliFlag::Fraction(f) => {
            let ghost before = o.fractions@;
            o.fractions.push(FloatArg { setting: f, value: v.to_owned() });
            assert(fractions_view(o.fractions@) =~= fractions_view(before).push((f, v@)));
            Ok(())
        },
    }
}

/// Reads the command line `args`, the program name first: the settings it
/// gives over the defaults, and whether to run, show the usage text, or refuse
/// it and why. Reading stops at the first refused argument or at `--help`.
/// The width and height of a command line that runs are kept only within
/// `1..=MAX_CANVAS_DIMENSION`; the fraction settings are handed back as written.
pub fn parse_cli_args(args: Vec<String>) -> (r: CliParse)
    ensures
        (options_view(r.options), outcome_view(r.outcome)) == parse_from(
            user_args(strings_view(args@)),
            0,
            default_cli_model(),
        ),
{
    let ghost all = strings_view(args@);
    let mut rest: Vec<String> = Vec::new();
    let n = args.len();
    if n > 0 {
        let mut k: usize = 1;
        assert(all.subrange(1, 1) =~= Seq::<Seq<char>>::empty());
        while k < n
            invariant
                n == args@.len(),
                all == strings_view(args@),
                1 <= k <= n,
                strings_view(rest@) == without_cli(all.subrange(1, k as int)),
            decreases n - k,
        {
            let ghost prev = all.subrange(1, k as int);
            assert(all.subrange(1, k + 1).drop_last() =~= prev);
            assert(all.subrange(1, k + 1).last() == args@[k as int]@);
            if !str_eq(args[k].as_str(), "--cli") {
                let ghost before = rest@;
                rest.push(args[k].clone());
                assert(strings_view(rest@) =~= strings_view(before).push(args@[k as int]@));
            }
            k = k + 1;
        }
        assert(all.subrange(1, n as int) =~= all.drop_first());
    } else {
        assert(strings_view(rest@) =~= all);
    }
    let ghost uargs = strings_view(rest@);
    assert(uargs == user_args(all));
    let mut o = CliOptions {
        mode: RunMode::Gsi,
        port: DEFAULT_GSI_PORT,
        lang: Lang::Cn,
        side: SidePreference::Auto,
        width: None,
        height: None,
        vsync: true,
        fractions: Vec::new(),
    };
    assert(options_view(o) == default_cli_model()) by {
        assert(fractions_view(o.fractions@) =~= Seq::<(FloatSetting, Seq<char>)>::empty());
    }
    let m = rest.len();
    let mut i: usize = 0;
    while i < m
        invariant
            m == rest@.len(),
            uargs == strings_view(rest@),
            uargs == user_args(strings_view(args@)),
            i <= m,
            parse_from(uargs, 0, default_cli_model()) == parse_from(uargs, i as int, options_view(o)),
        decreases m - i,
    {
        let a = rest[i].as_str();
        assert(uargs[i as int] == a@);
        if str_eq(a, "--demo") {
            o.mode = RunMode::Demo;
            i = i + 1;
        } else if str_eq(a, "--no-vsync") || str_eq(a, "--unlocked") {
            o.vsync = false;
            i = i + 1;
        } else if str_eq(a, "--help") || str_eq(a, "-h") {
            return CliParse { options: o, outcome: CliOutcome::Help };
        } else {
            match value_flag_of(a) {
                None => {
                    return CliParse {
                        options: o,
                        outcome: CliOutcome::Failed(CliFailure::UnknownArgument(a.to_owned())),
                    };
                },
                Some(flag) => {
                    if i + 1 >= m {
                        return CliParse { options: o, outcome: CliOutcome::Failed(CliFailure::MissingValue(flag)) };
                    }
                    assert(uargs[i + 1] == rest@[i + 1]@);
                    match apply_value_exec(&mut o, flag, rest[i + 1].as_str()) {
                        Ok(()) => {
                            i = i + 2;
                        },
                        Err(f) => {
                            return CliParse { options: o, outcome: CliOutcome::Failed(f) };
                        },
                    }
                },
            }
        }
    }
    o.width = normalize_dimension(o.width);
    o.height = normalize_dimension(o.height);
    CliParse { options: o, outcome: CliOutcome::Run }
}


impl std::str::FromStr for SidePreference {
    type Err = UnknownName;

    fn from_str(s: &str) -> (r: Result<SidePreference, UnknownName>)
        ensures
            match r {
                Ok(p) => side_preference_named(s@) == Some(p),
                Err(e) => side_preference_named(s@) is None && e.text@ == s@,
            },
    {
        SidePreference::parse(s)
    }
}

/// A command line of one value option `a` and its value `v`.
proof fn lemma_one_value_option(a: Seq<char>, v: Seq<char>, m: CliModel, flag: CliFlag)
    requires
        value_flag(a) == Some(flag),
        a != "--demo"@,
        a != "--no-vsync"@,
        a != "--unlocked"@,
        a != "--help"@,
        a != "-h"@,
    ensures
        match apply_value(m, flag, v) {
            Ok(m2) => parse_from(seq![a, v], 0, m) == (
                CliModel { width: valid_dimension(m2.width), height: valid_dimension(m2.height), ..m2 },
                OutcomeModel::Run,
            ),
            Err(f) => parse_from(seq![a, v], 0, m) == (m, OutcomeModel::Failed(f)),
        },
{
    let args = seq![a, v];
    assert(args[0] == a);
    assert(args[1] == v);
    match apply_value(m, flag, v) {
        Ok(m2) => {
            assert(parse_from(args, 2, m2) == (
                CliModel { width: valid_dimension(m2.width), height: valid_dimension(m2.height), ..m2 },
                OutcomeModel::Run,
            ));
        },
        Err(f) => {},
    }
}

/// Each value option sets the setting of its own name, whatever its value:
/// `--icon-scale`, `--icon-x`, `--icon-y`, `--volume` and `--kill-streak-reset`
/// with value `v` add the fraction setting of that name with `v` and the
/// command line runs; `--port`, `--width`, `--height`, `--lang` and `--side`
/// with a valid value set the port, the width (and not the height), the
/// height (and not the width), the language and the side.
pub proof fn law_value_options_set_their_own_setting(v: Seq<char>, m: CliModel)
    ensures
        parse_from(seq!["--icon-scale"@, v], 0, m).0.fractions == m.fractions.push((FloatSetting::IconScale, v)),
        parse_from(seq!["--icon-scale"@, v], 0, m).1 == OutcomeModel::Run,
        parse_from(seq!["--icon-x"@, v], 0, m).0.fractions == m.fractions.push((FloatSetting::IconX, v)),
        parse_from(seq!["--icon-x"@, v], 0, m).1 == OutcomeModel::Run,
        parse_from(seq!["--icon-y"@, v], 0, m).0.fractions == m.fractions.push((FloatSetting::IconY, v)),
        parse_from(seq!["--icon-y"@, v], 0, m).1 == OutcomeModel::Run,
        parse_from(seq!["--volume"@, v], 0, m).0.fractions == m.fractions.push((FloatSetting::Volume, v)),
        parse_from(seq!["--volume"@, v], 0, m).1 == OutcomeModel::Run,
        parse_from(seq!["--kill-streak-reset"@, v], 0, m).0.fractions == m.fractions.push((FloatSetting::KillStreakReset, v)),
        parse_from(seq!["--kill-streak-reset"@, v], 0, m).1 == OutcomeModel::Run,
        parse_unsigned(v, u16::MAX as int) matches Ok(n) ==> parse_from(seq!["--port"@, v], 0, m).0.port == n as u16,
        parse_unsigned(v, u32::MAX as int) matches Ok(n) ==> parse_from(seq!["--width"@, v], 0, m).0.width
            == valid_dimension(Some(n as u32)) && parse_from(seq!["--width"@, v], 0, m).0.height == valid_dimension(m.height),
        parse_unsigned(v, u32::MAX as int) matches Ok(n) ==> parse_from(seq!["--height"@, v], 0, m).0.height
            == valid_dimension(Some(n as u32)) && parse_from(seq!["--height"@, v], 0, m).0.width == valid_dimension(m.width),
        lang_named(v) matches Some(l) ==> parse_from(seq!["--lang"@, v], 0, m).0.lang == l,
        side_preference_named(v) matches Some(p) ==> parse_from(seq!["--side"@, v], 0, m).0.side == p,
{
    assert(value_flag("--icon-scale"@) == Some(CliFlag::Fraction(FloatSetting::IconScale)) && "--icon-scale"@ != "--demo"@ && "--icon-scale"@ != "--no-vsync"@ && "--icon-scale"@ != "--unlocked"@ && "--icon-scale"@ != "--help"@ && "--icon-scale"@ != "-h"@) by {
        reveal_strlit("--icon-scale");
        reveal_strlit("--demo");
        reveal_strlit("--no-vsync");
        reveal_strlit("--unlocked");
        reveal_strlit("--help");
        reveal_strlit("-h");
        reveal_strlit("--port");
        reveal_strlit("--lang");
        reveal_strlit("--side");
        reveal_strlit("--width");
        reveal_strlit("--height");
        reveal_strlit("--icon-x");
        reveal_strlit("--icon-y");
        reveal_strlit("--volume");
        reveal_strlit("--kill-streak-reset");
        assert("--icon-scale"@.len() != "--demo"@.len());
        assert("--icon-scale"@.len() != "--no-vsync"@.len());
        assert("--icon-scale"@.len() != "--unlocked"@.len());
        assert("--icon-scale"@.len() != "--help"@.len());
        assert("--icon-scale"@.len() != "-h"@.len());
        assert("--icon-scale"@.len() != "--port"@.len());
        assert("--icon-scale"@.len() != "--lang"@.len());
        assert("--icon-scale"@.len() != "--side"@.len());
        assert("--icon-scale"@.len() != "--width"@.len());
        assert("--icon-scale"@.len() != "--height"@.len());
        assert("--icon-scale"@.len() != "--icon-x"@.len());
        assert("--icon-scale"@.len() != "--icon-y"@.len());
        assert("--icon-scale"@.len() != "--volume"@.len());
        assert("--icon-scale"@.len() != "--kill-streak-reset"@.len());
    }
    lemma_one_value_option("--icon-scale"@, v, m, CliFlag::Fraction(FloatSetting::IconScale));
    assert(value_flag("--icon-x"@) == Some(CliFlag::Fraction(FloatSetting::IconX)) && "--icon-x"@ != "--demo"@ && "--icon-x"@ != "--no-vsync"@ && "--icon-x"@ != "--unlocked"@ && "--icon-x"@ != "--help"@ && "--icon-x"@ != "-h"@) by {
        reveal_strlit("--icon-x");
        reveal_strlit("--demo");
        reveal_strlit("--no-vsync");
        reveal_strlit("--unlocked");
        reveal_strlit("--help");
        reveal_strlit("-h");
        reveal_strlit("--port");
        reveal_strlit("--lang");
        reveal_strlit("--side");
        reveal_strlit("--width");
        reveal_strlit("--height");
        reveal_strlit("--icon-scale");
        reveal_strlit("--icon-y");
        reveal_strlit("--volume");
        reveal_strlit("--kill-streak-reset");
        assert("--icon-x"@.len() != "--demo"@.len());
        assert("--icon-x"@.len() != "--no-vsync"@.len());
        assert("--icon-x"@.len() != "--unlocked"@.len());
        assert("--icon-x"@.len() != "--help"@.len());
        assert("--icon-x"@.len() != "-h"@.len());
        assert("--icon-x"@.len() != "--port"@.len());
        assert("--icon-x"@.len() != "--lang"@.len());
        assert("--icon-x"@.len() != "--side"@.len());
        assert("--icon-x"@.len() != "--width"@.len());
        assert("--icon-x"@[2] != "--height"@[2]);
        assert("--icon-x"@.len() != "--icon-scale"@.len());
        assert("--icon-x"@[7] != "--icon-y"@[7]);
        assert("--icon-x"@[2] != "--volume"@[2]);
        assert("--icon-x"@.len() != "--kill-streak-reset"@.len());
    }
    lemma_one_value_option("--icon-x"@, v, m, CliFlag::Fraction(FloatSetting::IconX));
    assert(value_flag("--icon-y"@) == Some(CliFlag::Fraction(FloatSetting::IconY)) && "--icon-y"@ != "--demo"@ && "--icon-y"@ != "--no-vsync"@ && "--icon-y"@ != "--unlocked"@ && "--icon-y"@ != "--help"@ && "--icon-y"@ != "-h"@) by {
        reveal_strlit("--icon-y");
        reveal_strlit("--demo");
        reveal_strlit("--no-vsync");
        reveal_strlit("--unlocked");
        reveal_strlit("--help");
        reveal_strlit("-h");
        reveal_strlit("--port");
        reveal_strlit("--lang");
        reveal_strlit("--side");
        reveal_strlit("--width");
        reveal_strlit("--height");
        reveal_strlit("--icon-scale");
        reveal_strlit("--icon-x");
        reveal_strlit("--volume");
        reveal_strlit("--kill-streak-reset");
        assert("--icon-y"@.len() != "--demo"@.len());
        assert("--icon-y"@.len() != "--no-vsync"@.len());
        assert("--icon-y"@.len() != "--unlocked"@.len());
        assert("--icon-y"@.len() != "--help"@.len());
        assert("--icon-y"@.len() != "-h"@.len());
        assert("--icon-y"@.len() != "--port"@.len());
        assert("--icon-y"@.len() != "--lang"@.len());
        assert("--icon-y"@.len() != "--side"@.len());
        assert("--icon-y"@.len() != "--width"@.len());
        assert("--icon-y"@[2] != "--height"@[2]);
        assert("--icon-y"@.len() != "--icon-scale"@.len());
        assert("--icon-y"@[7] != "--icon-x"@[7]);
        assert("--icon-y"@[2] != "--volume"@[2]);
        assert("--icon-y"@.len() != "--kill-streak-reset"@.len());
    }
    lemma_one_value_option("--icon-y"@, v, m, CliFlag::Fraction(FloatSetting::IconY));
    assert(value_flag("--volume"@) == Some(CliFlag::Fraction(FloatSetting::Volume)) && "--volume"@ != "--demo"@ && "--volume"@ != "--no-vsync"@ && "--volume"@ != "--unlocked"@ && "--volume"@ != "--help"@ && "--volume"@ != "-h"@) by {
        reveal_strlit("--volume");
        reveal_strlit("--demo");
        reveal_strlit("--no-vsync");
        reveal_strlit("--unlocked");
        reveal_strlit("--help");
        reveal_strlit("-h");
        reveal_strlit("--port");
        reveal_strlit("--lang");
        reveal_strlit("--side");
        reveal_strlit("--width");
        reveal_strlit("--height");
        reveal_strlit("--icon-scale");
        reveal_strlit("--icon-x");
        reveal_strlit("--icon-y");
        reveal_strlit("--kill-streak-reset");
        assert("--volume"@.len() != "--demo"@.len());
        assert("--volume"@.len() != "--no-vsync"@.len());
        assert("--volume"@.len() != "--unlocked"@.len());
        assert("--volume"@.len() != "--help"@.len());
        assert("--volume"@.len() != "-h"@.len());
        assert("--volume"@.len() != "--port"@.len());
        assert("--volume"@.len() != "--lang"@.len());
        assert("--volume"@.len() != "--side"@.len());
        assert("--volume"@.len() != "--width"@.len());
        assert("--volume"@[2] != "--height"@[2]);
        assert("--volume"@.len() != "--icon-scale"@.len());
        assert("--volume"@[2] != "--icon-x"@[2]);
        assert("--volume"@[2] != "--icon-y"@[2]);
        assert("--volume"@.len() != "--kill-streak-reset"@.len());
    }
    lemma_one_value_option("--volume"@, v, m, CliFlag::Fraction(FloatSetting::Volume));
    assert(value_flag("--kill-streak-reset"@) == Some(CliFlag::Fraction(FloatSetting::KillStreakReset)) && "--kill-streak-reset"@ != "--demo"@ && "--kill-streak-reset"@ != "--no-vsync"@ && "--kill-streak-reset"@ != "--unlocked"@ && "--kill-streak-reset"@ != "--help"@ && "--kill-streak-reset"@ != "-h"@) by {
        reveal_strlit("--kill-streak-reset");
        reveal_strlit("--demo");
        reveal_strlit("--no-vsync");
        reveal_strlit("--unlocked");
        reveal_strlit("--help");
        reveal_strlit("-h");
        reveal_strlit("--port");
        reveal_strlit("--lang");
        reveal_strlit("--side");
        reveal_strlit("--width");
        reveal_strlit("--height");
        reveal_strlit("--icon-scale");
        reveal_strlit("--icon-x");
        reveal_strlit("--icon-y");
        reveal_strlit("--volume");
        assert("--kill-streak-reset"@.len() != "--demo"@.len());
        assert("--kill-streak-reset"@.len() != "--no-vsync"@.len());
        assert("--kill-streak-reset"@.len() != "--unlocked"@.len());
        assert("--kill-streak-reset"@.len() != "--help"@.len());
        assert("--kill-streak-reset"@.len() != "-h"@.len());
        assert("--kill-streak-reset"@.len() != "--port"@.len());
        assert("--kill-streak-reset"@.len() != "--lang"@.len());
        assert("--kill-streak-reset"@.len() != "--side"@.len());
        assert("--kill-streak-reset"@.len() != "--width"@.len());
        assert("--kill-streak-reset"@.len() != "--height"@.len());
        assert("--kill-streak-reset"@.len() != "--icon-scale"@.len());
        assert("--kill-streak-reset"@.len() != "--icon-x"@.len());
        assert("--kill-streak-reset"@.len() != "--icon-y"@.len());
        assert("--kill-streak-reset"@.len() != "--volume"@.len());
    }
    lemma_one_value_option("--kill-streak-reset"@, v, m, CliFlag::Fraction(FloatSetting::KillStreakReset));
    assert(value_flag("--port"@) == Some(CliFlag::Port) && "--port"@ != "--demo"@ && "--port"@ != "--no-vsync"@ && "--port"@ != "--unlocked"@ && "--port"@ != "--help"@ && "--port"@ != "-h"@) by {
        reveal_strlit("--port");
        reveal_strlit("--demo");
        reveal_strlit("--no-vsync");
        reveal_strlit("--unlocked");
        reveal_strlit("--help");
        reveal_strlit("-h");
        reveal_strlit("--lang");
        reveal_strlit("--side");
        reveal_strlit("--width");
        reveal_strlit("--height");
        reveal_strlit("--icon-scale");
        reveal_strlit("--icon-x");
        reveal_strlit("--icon-y");
        reveal_strlit("--volume");
        reveal_strlit("--kill-streak-reset");
        assert("--port"@[2] != "--demo"@[2]);
        assert("--port"@.len() != "--no-vsync"@.len());
        assert("--port"@.len() != "--unlocked"@.len());
        assert("--port"@[2] != "--help"@[2]);
        assert("--port"@.len() != "-h"@.len());
        assert("--port"@[2] != "--lang"@[2]);
        assert("--port"@[2] != "--side"@[2]);
        assert("--port"@.len() != "--width"@.len());
        assert("--port"@.len() != "--height"@.len());
        assert("--port"@.len() != "--icon-scale"@.len());
        assert("--port"@.len() != "--icon-x"@.len());
        assert("--port"@.len() != "--icon-y"@.len());
        assert("--port"@.len() != "--volume"@.len());
        assert("--port"@.len() != "--kill-streak-reset"@.len());
    }
    lemma_one_value_option("--port"@, v, m, CliFlag::Port);
    assert(value_flag("--width"@) == Some(CliFlag::Width) && "--width"@ != "--demo"@ && "--width"@ != "--no-vsync"@ && "--width"@ != "--unlocked"@ && "--width"@ != "--help"@ && "--width"@ != "-h"@) by {
        reveal_strlit("--width");
        reveal_strlit("--demo");
        reveal_strlit("--no-vsync");
        reveal_strlit("--unlocked");
        reveal_strlit("--help");
        reveal_strlit("-h");
        reveal_strlit("--port");
        reveal_strlit("--lang");
        reveal_strlit("--side");
        reveal_strlit("--height");
        reveal_strlit("--icon-scale");
        reveal_strlit("--icon-x");
        reveal_strlit("--icon-y");
        reveal_strlit("--volume");
        reveal_strlit("--kill-streak-reset");
        assert("--width"@.len() != "--demo"@.len());
        assert("--width"@.len() != "--no-vsync"@.len());
        assert("--width"@.len() != "--unlocked"@.len());
        assert("--width"@.len() != "--help"@.len());
        assert("--width"@.len() != "-h"@.len());
        assert("--width"@.len() != "--port"@.len());
        assert("--width"@.len() != "--lang"@.len());
        assert("--width"@.len() != "--side"@.len());
        assert("--width"@.len() != "--height"@.len());
        assert("--width"@.len() != "--icon-scale"@.len());
        assert("--width"@.len() != "--icon-x"@.len());
        assert("--width"@.len() != "--icon-y"@.len());
        assert("--width"@.len() != "--volume"@.len());
        assert("--width"@.len() != "--kill-streak-reset"@.len());
    }
    lemma_one_value_option("--width"@, v, m, CliFlag::Width);
    assert(value_flag("--height"@) == Some(CliFlag::Height) && "--height"@ != "--demo"@ && "--height"@ != "--no-vsync"@ && "--height"@ != "--unlocked"@ && "--height"@ != "--help"@ && "--height"@ != "-h"@) by {
        reveal_strlit("--height");
        reveal_strlit("--demo");
        reveal_strlit("--no-vsync");
        reveal_strlit("--unlocked");
        reveal_strlit("--help");
        reveal_strlit("-h");
        reveal_strlit("--port");
        reveal_strlit("--lang");
        reveal_strlit("--side");
        reveal_strlit("--width");
        reveal_strlit("--icon-scale");
        reveal_strlit("--icon-x");
        reveal_strlit("--icon-y");
        reveal_strlit("--volume");
        reveal_strlit("--kill-streak-reset");
        assert("--height"@.len() != "--demo"@.len());
        assert("--height"@.len() != "--no-vsync"@.len());
        assert("--height"@.len() != "--unlocked"@.len());
        assert("--height"@.len() != "--help"@.len());
        assert("--height"@.len() != "-h"@.len());
        assert("--height"@.len() != "--port"@.len());
        assert("--height"@.len() != "--lang"@.len());
        assert("--height"@.len() != "--side"@.len());
        assert("--height"@.len() != "--width"@.len());
        assert("--height"@.len() != "--icon-scale"@.len());
        assert("--height"@[2] != "--icon-x"@[2]);
        assert("--height"@[2] != "--icon-y"@[2]);
        assert("--height"@[2] != "--volume"@[2]);
        assert("--height"@.len() != "--kill-streak-reset"@.len());
    }
    lemma_one_value_option("--height"@, v, m, CliFlag::Height);
    assert(value_flag("--lang"@) == Some(CliFlag::Lang) && "--lang"@ != "--demo"@ && "--lang"@ != "--no-vsync"@ && "--lang"@ != "--unlocked"@ && "--lang"@ != "--help"@ && "--lang"@ != "-h"@) by {
        reveal_strlit("--lang");
        reveal_strlit("--demo");
        reveal_strlit("--no-vsync");
        reveal_strlit("--unlocked");
        reveal_strlit("--help");
        reveal_strlit("-h");
        reveal_strlit("--port");
        reveal_strlit("--side");
        reveal_strlit("--width");
        reveal_strlit("--height");
        reveal_strlit("--icon-scale");
        reveal_strlit("--icon-x");
        reveal_strlit("--icon-y");
        reveal_strlit("--volume");
        reveal_strlit("--kill-streak-reset");
        assert("--lang"@[2] != "--demo"@[2]);
        assert("--lang"@.len() != "--no-vsync"@.len());
        assert("--lang"@.len() != "--unlocked"@.len());
        assert("--lang"@[2] != "--help"@[2]);
        assert("--lang"@.len() != "-h"@.len());
        assert("--lang"@[2] != "--port"@[2]);
        assert("--lang"@[2] != "--side"@[2]);
        assert("--lang"@.len() != "--width"@.len());
        assert("--lang"@.len() != "--height"@.len());
        assert("--lang"@.len() != "--icon-scale"@.len());
        assert("--lang"@.len() != "--icon-x"@.len());
        assert("--lang"@.len() != "--icon-y"@.len());
        assert("--lang"@.len() != "--volume"@.len());
        assert("--lang"@.len() != "--kill-streak-reset"@.len());
    }
    lemma_one_value_option("--lang"@, v, m, CliFlag::Lang);
    assert(value_flag("--side"@) == Some(CliFlag::Side) && "--side"@ != "--demo"@ && "--side"@ != "--no-vsync"@ && "--side"@ != "--unlocked"@ && "--side"@ != "--help"@ && "--side"@ != "-h"@) by {
        reveal_strlit("--side");
        reveal_strlit("--demo");
        reveal_strlit("--no-vsync");
        reveal_strlit("--unlocked");
        reveal_strlit("--help");
        reveal_strlit("-h");
        reveal_strlit("--port");
        reveal_strlit("--lang");
        reveal_strlit("--width");
        reveal_strlit("--height");
        reveal_strlit("--icon-scale");
        reveal_strlit("--icon-x");
        reveal_strlit("--icon-y");
        reveal_strlit("--volume");
        reveal_strlit("--kill-streak-reset");
        assert("--side"@[2] != "--demo"@[2]);
        assert("--side"@.len() != "--no-vsync"@.len());
        assert("--side"@.len() != "--unlocked"@.len());
        assert("--side"@[2] != "--help"@[2]);
        assert("--side"@.len() != "-h"@.len());
        assert("--side"@[2] != "--port"@[2]);
        assert("--side"@[2] != "--lang"@[2]);
        assert("--side"@.len() != "--width"@.len());
        assert("--side"@.len() != "--height"@.len());
        assert("--side"@.len() != "--icon-scale"@.len());
        assert("--side"@.len() != "--icon-x"@.len());
        assert("--side"@.len() != "--icon-y"@.len());
        assert("--side"@.len() != "--volume"@.len());
        assert("--side"@.len() != "--kill-streak-reset"@.len());
    }
    lemma_one_value_option("--side"@, v, m, CliFlag::Side);
}

} // verus!

//! Level filter of the application's logger: a default level, overridden
//! for named modules (and their sub-modules) by the longest matching name.
use std::collections::HashMap;

use vstd::prelude::*;
use vstd::utf8::encode_utf8;

use crate::output::{lower_of, lowercase};

verus! {

/// How much is logged, from nothing (`Off`) to everything (`Trace`).
#[derive(Debug, Clone, Copy, PartialEq, Eq, Structural)]
pub enum LevelFilter {
    Off,
    Error,
    Warn,
    Info,
    Debug,
    Trace,
}

impl LevelFilter {
    /// Position in the order `Off < Error < Warn < Info < Debug < Trace`.
    pub open spec fn rank_of(self) -> nat {
        match self {
            LevelFilter::Off => 0,
            LevelFilter::Error => 1,
            LevelFilter::Warn => 2,
            LevelFilter::Info => 3,
            LevelFilter::Debug => 4,
            LevelFilter::Trace => 5,
        }
    }

    pub fn rank(self) -> (r: u8)
        ensures
            r as nat == self.rank_of(),
    {
        match self {
            LevelFilter::Off => 0,
            LevelFilter::Error => 1,
            LevelFilter::Warn => 2,
            LevelFilter::Info => 3,
            LevelFilter::Debug => 4,
            LevelFilter::Trace => 5,
        }
    }

    /// The more verbose of two levels.
    pub fn max(self, other: LevelFilter) -> (r: LevelFilter)
        ensures
            r == (if self.rank_of() >= other.rank_of() { self } else { other }),
    {
        if self.rank() >= other.rank() {
            self
        } else {
            other
        }
    }
}

/// The level that a lower-case name stands for.
pub open spec fn level_named(name: Seq<char>) -> Option<LevelFilter> {
    if name == "trace"@ {
        Some(LevelFilter::Trace)
    } else if name == "debug"@ {
        Some(LevelFilter::Debug)
    } else if name == "info"@ {
        Some(LevelFilter::Info)
    } else if name == "warn"@ {
        Some(LevelFilter::Warn)
    } else if name == "error"@ {
        Some(LevelFilter::Error)
    } else {
        None
    }
}

/// The level whose name is exactly `name` (lower case).
pub fn level_from_lowercase(name: &str) -> (r: Option<LevelFilter>)
    ensures
        r == level_named(name@),
{
    let name = name.to_owned();
    if name == "trace".to_owned() {
        Some(LevelFilter::Trace)
    } else if name == "debug".to_owned() {
        Some(LevelFilter::Debug)
    } else if name == "info".to_owned() {
        Some(LevelFilter::Info)
    } else if name == "warn".to_owned() {
        Some(LevelFilter::Warn)
    } else if name == "error".to_owned() {
        Some(LevelFilter::Error)
    } else {
        None
    }
}

/// A module name applies to a target when its UTF-8 bytes begin the
/// target's.
pub open spec fn name_applies(name: Seq<char>, target: Seq<char>) -> bool {
    encode_utf8(name).is_prefix_of(encode_utf8(target))
}

/// Length of a name in bytes.
pub open spec fn name_len(name: Seq<char>) -> nat {
    encode_utf8(name).len()
}

/// Entry `i` governs `target`: its name applies, no applying name is
/// longer, and every applying entry before it is shorter.
pub open spec fn governs(levels: Seq<(Seq<char>, LevelFilter)>, i: int, target: Seq<char>) -> bool {
    &&& 0 <= i < levels.len()
    &&& name_applies(levels[i].0, target)
    &&& forall|j: int|
        0 <= j < levels.len() && #[trigger] name_applies(levels[j].0, target) ==> name_len(levels[j].0)
            <= name_len(levels[i].0)
    &&& forall|j: int|
        0 <= j < i && #[trigger] name_applies(levels[j].0, target) ==> name_len(levels[j].0) < name_len(
            levels[i].0,
        )
}

/// The level in force for `target`: that of the governing entry, or the
/// default where no name applies.
pub open spec fn level_in_force(
    levels: Seq<(Seq<char>, LevelFilter)>,
    default_level: LevelFilter,
    target: Seq<char>,
) -> LevelFilter {
    if exists|i: int| governs(levels, i, target) {
        levels[choose|i: int| governs(levels, i, target)].1
    } else {
        default_level
    }
}

/// The most verbose of a default level and a list of levels.
pub open spec fn max_level_of(levels: Seq<(Seq<char>, LevelFilter)>, default_level: LevelFilter) -> LevelFilter
    decreases levels.len(),
{
    if levels.len() == 0 {
        default_level
    } else {
        let rest = max_level_of(levels.drop_last(), default_level);
        if rest.rank_of() >= levels.last().1.rank_of() {
            rest
        } else {
            levels.last().1
        }
    }
}

/// `entry` is the view of an entry of `map`.
pub open spec fn entry_in_map(map: Map<String, LevelFilter>, entry: (Seq<char>, LevelFilter)) -> bool {
    exists|k: String| #[trigger] map.contains_key(k) && k@ == entry.0 && map[k] == entry.1
}

/// What the logger is configured with.
pub struct LoggerView {
    pub default_level: LevelFilter,
    pub module_levels: Seq<(Seq<char>, LevelFilter)>,
}

pub struct VecLogger {
    /// The level of targets that no module entry governs.
    default_level: LevelFilter,
    /// Levels of named modules and their sub-modules, in the order given.
    module_levels: Vec<(String, LevelFilter)>,
}

impl View for VecLogger {
    type V = LoggerView;

    closed spec fn view(&self) -> LoggerView {
        LoggerView {
            default_level: self.default_level,
            module_levels: self.module_levels@.map_values(|e: (String, LevelFilter)| (e.0@, e.1)),
        }
    }
}


/// Relies on `log::set_max_level`, which stores the global level that the
/// `log` macros test before a record reaches the logger.
#[verifier::external_body]
fn set_max_level(level: LevelFilter) {
    log::set_max_level(match level {
        LevelFilter::Off => log::LevelFilter::Off,
        LevelFilter::Error => log::LevelFilter::Error,
        LevelFilter::Warn => log::LevelFilter::Warn,
        LevelFilter::Info => log::LevelFilter::Info,
        LevelFilter::Debug => log::LevelFilter::Debug,
        LevelFilter::Trace => log::LevelFilter::Trace,
    });
}

/// Relies on `Vec::from_iter` over a `HashMap`, which yields every entry of
/// the map once, in no fixed order.
#[verifier::external_body]
fn entries_of(map: HashMap<String, LevelFilter>) -> (r: Vec<(String, LevelFilter)>)
    ensures
        r@.len() == map@.len(),
        forall|i: int|
            0 <= i < r@.len() ==> map@.contains_key(#[trigger] r@[i].0) && map@[r@[i].0] == r@[i].1,
        forall|k: String| #[trigger] map@.contains_key(k) ==> exists|i: int| 0 <= i < r@.len() && r@[i].0 == k,
{
    Vec::from_iter(map)
}

/// Whether the bytes of `name` begin those of `target`.
pub fn name_applies_to(name: &str, target: &str) -> (r: bool)
    ensures
        r == name_applies(name@, target@),
{
    let n = name.as_bytes();
    let t = target.as_bytes();
    if n.len() > t.len() {
        return false;
    }
    let mut i: usize = 0;
    while i < n.len()
        invariant
            n.len() <= t.len(),
            i <= n.len(),
            n@ == encode_utf8(name@),
            t@ == encode_utf8(target@),
            forall|j: int| 0 <= j < i ==> n@[j] == t@[j],
        decreases n.len() - i,
    {
        if n[i] != t[i] {
            return false;
        }
        i += 1;
    }
    true
}

proof fn governs_unique(levels: Seq<(Seq<char>, LevelFilter)>, i: int, k: int, target: Seq<char>)
    requires
        governs(levels, i, target),
        governs(levels, k, target),
    ensures
        i == k,
{
    if i < k {
        assert(name_applies(levels[i].0, target));
    } else if k < i {
        assert(name_applies(levels[k].0, target));
    }
}

impl VecLogger {
    /// A logger at level `Trace` with no module entries.
    pub fn new() -> (r: VecLogger)
        ensures
            r@ == (LoggerView { default_level: LevelFilter::Trace, module_levels: Seq::empty() }),
    {
        let r = VecLogger { default_level: LevelFilter::Trace, module_levels: Vec::new() };
        assert(r@.module_levels =~= Seq::empty());
        r
    }

    /// A logger at level `Error`, then set from `rust_log`, the value of the
    /// `RUST_LOG` variable, as [`VecLogger::env`] does.
    pub fn from_env(rust_log: Option<&str>) -> (r: VecLogger)
        ensures
            r@ == VecLogger::new_with_env(rust_log),
    {
        VecLogger::new().with_level(LevelFilter::Error).env(rust_log)
    }

    pub open spec fn new_with_env(rust_log: Option<&str>) -> LoggerView {
        LoggerView {
            default_level: env_level(rust_log, LevelFilter::Error),
            module_levels: Seq::empty(),
        }
    }

    /// Sets the default level from `rust_log`, the value of the `RUST_LOG`
    /// variable: a level name in any letter case. An absent or unknown
    /// value keeps the level set before.
    pub fn env(self, rust_log: Option<&str>) -> (r: VecLogger)
        ensures
            r@ == (LoggerView { default_level: env_level(rust_log, self@.default_level), ..self@ }),
    {
        let mut logger = self;
        if let Some(value) = rust_log {
            let lowered = lowercase(value);
            if let Some(level) = level_from_lowercase(lowered.as_str()) {
                logger.default_level = level;
            }
        }
        logger
    }

    /// Sets the default level.
    pub fn with_level(self, level: LevelFilter) -> (r: VecLogger)
        ensures
            r@ == (LoggerView { default_level: level, ..self@ }),
    {
        let mut logger = self;
        logger.default_level = level;
        logger
    }

    /// Sets the level of module `target` and its sub-modules. Where two
    /// applying names are equally long, the one given first counts.
    pub fn with_module_level(self, target: &str, level: LevelFilter) -> (r: VecLogger)
        ensures
            r@ == (LoggerView { module_levels: self@.module_levels.push((target@, level)), ..self@ }),
    {
        let mut logger = self;
        logger.module_levels.push((target.to_owned(), level));
        assert(logger@.module_levels =~= self@.module_levels.push((target@, level)));
        logger
    }

    /// Replaces the module entries by those of `target_levels`, in the
    /// order in which the map yields them.
    pub fn with_target_levels(self, target_levels: HashMap<String, LevelFilter>) -> (r: VecLogger)
        ensures
            r@.default_level == self@.default_level,
            r@.module_levels.len() == target_levels@.len(),
            forall|i: int|
                0 <= i < r@.module_levels.len() ==> entry_in_map(target_levels@, #[trigger] r@.module_levels[i]),
            forall|k: String|
                #[trigger] target_levels@.contains_key(k) ==> exists|i: int|
                    0 <= i < r@.module_levels.len() && r@.module_levels[i] == (k@, target_levels@[k]),
    {
        let ghost map = target_levels@;
        let mut logger = self;
        logger.module_levels = entries_of(target_levels);
        let ghost entries = logger.module_levels@;
        assert forall|i: int| 0 <= i < logger@.module_levels.len() implies entry_in_map(
            map,
            #[trigger] logger@.module_levels[i],
        ) by {
            assert(map.contains_key(entries[i].0));
            assert(logger@.module_levels[i] == (entries[i].0@, entries[i].1));
        }
        assert forall|k: String| #[trigger] map.contains_key(k) implies exists|i: int|
            0 <= i < logger@.module_levels.len() && logger@.module_levels[i] == (k@, map[k]) by {
            let i = choose|i: int| 0 <= i < entries.len() && entries[i].0 == k;
            assert(map.contains_key(entries[i].0));
            assert(logger@.module_levels[i] == (k@, map[k]));
        }
        logger
    }

    /// The module entry that governs `target`, if any name applies to it.
    pub fn governing_entry(&self, target: &str) -> (r: Option<usize>)
        ensures
            match r {
                Some(i) => governs(self@.module_levels, i as int, target@),
                None => forall|j: int|
                    0 <= j < self@.module_levels.len() ==> !#[trigger] name_applies(
                        self@.module_levels[j].0,
                        target@,
                    ),
            },
    {
        let ghost levels = self@.module_levels;
        let mut best: Option<usize> = None;
        let mut best_len: usize = 0;
        let mut i: usize = 0;
        while i < self.module_levels.len()
            invariant
                i <= self.module_levels.len(),
                levels == self@.module_levels,
                levels.len() == self.module_levels.len(),
                match best {
                    Some(b) => {
                        &&& b < i
                        &&& name_applies(levels[b as int].0, target@)
                        &&& best_len == name_len(levels[b as int].0)
                        &&& forall|j: int|
                            0 <= j < i && #[trigger] name_applies(levels[j].0, target@) ==> name_len(
                                levels[j].0,
                            ) <= best_len
                        &&& forall|j: int|
                            0 <= j < b && #[trigger] name_applies(levels[j].0, target@) ==> name_len(
                                levels[j].0,
                            ) < best_len
                    },
                    None => forall|j: int| 0 <= j < i ==> !#[trigger] name_applies(levels[j].0, target@),
                },
            decreases self.module_levels.len() - i,
        {
            let name = self.module_levels[i].0.as_str();
            assert(name@ == levels[i as int].0);
            if name_applies_to(name, target) {
                let len = name.as_bytes().len();
                match best {
                    Some(_) => {
                        if len > best_len {
                            best = Some(i);
                            best_len = len;
                        }
                    },
                    None => {
                        best = Some(i);
                        best_len = len;
                    },
                }
            }
            i += 1;
        }
        best
    }

    /// The level in force for `target`.
    pub fn level_for(&self, target: &str) -> (r: LevelFilter)
        ensures
            r == level_in_force(self@.module_levels, self@.default_level, target@),
    {
        let ghost levels = self@.module_levels;
        match self.governing_entry(target) {
            Some(i) => {
                proof {
                    let c = choose|c: int| governs(levels, c, target@);
                    governs_unique(levels, i as int, c, target@);
                }
                self.module_levels[i].1
            },
            None => self.default_level,
        }
    }

    /// Whether a record of `level` for `target` is logged.
    pub fn enabled(&self, level: LevelFilter, target: &str) -> (r: bool)
        ensures
            r == (level.rank_of() <= level_in_force(self@.module_levels, self@.default_level, target@).rank_of()),
    {
        level.rank() <= self.level_for(target).rank()
    }

    /// The most verbose level that any target can have.
    pub fn max_level(&self) -> (r: LevelFilter)
        ensures
            r == max_level_of(self@.module_levels, self@.default_level),
    {
        let ghost levels = self@.module_levels;
        let mut best = self.default_level;
        let mut i: usize = 0;
        while i < self.module_levels.len()
            invariant
                i <= self.module_levels.len(),
                levels == self@.module_levels,
                levels.len() == self.module_levels.len(),
                best == max_level_of(levels.subrange(0, i as int), self@.default_level),
            decreases self.module_levels.len() - i,
        {
            assert(levels.subrange(0, i as int + 1).drop_last() =~= levels.subrange(0, i as int));
            best = best.max(self.module_levels[i].1);
            i += 1;
        }
        assert(levels.subrange(0, i as int) =~= levels);
        best
    }

    /// Sets the global maximum level of the `log` crate to the most verbose
    /// level of this logger, and hands the logger back for installation as
    /// the global logger.
    pub fn init(self) -> (r: VecLogger)
        ensures
            r@ == self@,
    {
        set_max_level(self.max_level());
        self
    }
}

/// The default level after reading `rust_log`: the level it names, in any
/// letter case, or `current` where it is absent or names none.
pub open spec fn env_level(rust_log: Option<&str>, current: LevelFilter) -> LevelFilter {
    match rust_log {
        Some(value) => match level_named(lower_of(value@)) {
            Some(level) => level,
            None => current,
        },
        None => current,
    }
}

impl Default for VecLogger {
    fn default() -> (r: VecLogger)
        ensures
            r@ == (LoggerView { default_level: LevelFilter::Trace, module_levels: Seq::empty() }),
    {
        VecLogger::new()
    }
}

} // verus!

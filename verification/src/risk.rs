//! Risk classification of command lines and filesystem paths.
//!
//! Classification is advisory: it decides how much confirmation an action
//! needs, and errs on the side of asking. A text is dangerous when it holds
//! one of the patterns of a small table, anywhere, as a plain substring.

use crate::text::{
    chars_of, contains, has_infix, lemma_lowered_idempotent, lemma_lowered_occurrence, lower_all,
    lowered, occurs_at,
};
use vstd::prelude::*;

verus! {

/// How much confirmation an action needs.
#[derive(Clone, Copy, Debug, PartialEq, Eq, Structural)]
pub enum RiskTier {
    Normal,
    Dangerous,
}

/// One line of a classification table: a substring and the tier of a text
/// that holds it.
#[derive(Clone, Copy, Debug)]
pub struct Rule {
    pub pattern: &'static str,
    pub tier: RiskTier,
}

impl View for Rule {
    type V = (Seq<char>, RiskTier);

    open spec fn view(&self) -> (Seq<char>, RiskTier) {
        (self.pattern@, self.tier)
    }
}

/// The views of the lines of a table.
pub open spec fn rule_views(rules: Seq<Rule>) -> Seq<(Seq<char>, RiskTier)> {
    Seq::new(rules.len(), |i: int| rules[i]@)
}

/// The table for command lines. Every pattern is in lower case: it is
/// looked for in the lower-cased line.
pub open spec fn command_rules() -> Seq<(Seq<char>, RiskTier)> {
    seq![
        ("rm -r"@, RiskTier::Dangerous),
        ("rm -f"@, RiskTier::Dangerous),
        ("rmdir /s"@, RiskTier::Dangerous),
        ("del /f"@, RiskTier::Dangerous),
        ("mkfs"@, RiskTier::Dangerous),
        ("format "@, RiskTier::Dangerous),
        ("fdisk"@, RiskTier::Dangerous),
        ("sudo"@, RiskTier::Dangerous),
        ("su -"@, RiskTier::Dangerous),
        ("kill"@, RiskTier::Dangerous),
        ("dd if="@, RiskTier::Dangerous),
        ("of=/dev/"@, RiskTier::Dangerous),
        ("> /dev/sd"@, RiskTier::Dangerous),
        ("shutdown"@, RiskTier::Dangerous),
        ("reboot"@, RiskTier::Dangerous),
        ("poweroff"@, RiskTier::Dangerous),
        ("halt"@, RiskTier::Dangerous),
    ]
}

/// The table for paths. Every pattern is written with forward slashes: it
/// is looked for in the path with its separators normalized.
pub open spec fn path_rules() -> Seq<(Seq<char>, RiskTier)> {
    seq![
        ("/etc/"@, RiskTier::Dangerous),
        ("/bin/"@, RiskTier::Dangerous),
        ("/sbin/"@, RiskTier::Dangerous),
        ("/boot/"@, RiskTier::Dangerous),
        ("/lib/"@, RiskTier::Dangerous),
        ("/root/"@, RiskTier::Dangerous),
        ("/sys/"@, RiskTier::Dangerous),
        ("/proc/"@, RiskTier::Dangerous),
        ("/dev/"@, RiskTier::Dangerous),
        (".ssh/"@, RiskTier::Dangerous),
        (".gnupg/"@, RiskTier::Dangerous),
        (".aws/"@, RiskTier::Dangerous),
        ("C:/Windows/"@, RiskTier::Dangerous),
    ]
}

/// The tier of a text under a table: dangerous when the text holds the
/// pattern of a dangerous line, normal otherwise.
pub open spec fn tier_under(rules: Seq<(Seq<char>, RiskTier)>, text: Seq<char>) -> RiskTier {
    if exists|k: int| hits(rules, text, k) {
        RiskTier::Dangerous
    } else {
        RiskTier::Normal
    }
}

/// Line `k` of the table is dangerous and its pattern stands in the text.
pub open spec fn hits(rules: Seq<(Seq<char>, RiskTier)>, text: Seq<char>, k: int) -> bool {
    &&& 0 <= k < rules.len()
    &&& rules[k].1 == RiskTier::Dangerous
    &&& contains(text, rules[k].0)
}

/// One character of a path with the separator in its canonical form.
pub open spec fn normal_char(c: char) -> char {
    if c == '\\' {
        '/'
    } else {
        c
    }
}

/// A path with every backslash replaced by a forward slash.
pub open spec fn normalized(path: Seq<char>) -> Seq<char> {
    Seq::new(path.len(), |i: int| normal_char(path[i]))
}

/// The tier of a command line: that of its lower-case form under the
/// command table.
pub open spec fn command_tier(line: Seq<char>) -> RiskTier {
    tier_under(command_rules(), lowered(line))
}

/// The tier of a path: that of its normalized form under the path table.
pub open spec fn path_tier(path: Seq<char>) -> RiskTier {
    tier_under(path_rules(), normalized(path))
}

/// The table for command lines.
pub fn command_table() -> (table: Vec<Rule>)
    ensures
        rule_views(table@) == command_rules(),
{
    let table = vec![
        Rule { pattern: "rm -r", tier: RiskTier::Dangerous },
        Rule { pattern: "rm -f", tier: RiskTier::Dangerous },
        Rule { pattern: "rmdir /s", tier: RiskTier::Dangerous },
        Rule { pattern: "del /f", tier: RiskTier::Dangerous },
        Rule { pattern: "mkfs", tier: RiskTier::Dangerous },
        Rule { pattern: "format ", tier: RiskTier::Dangerous },
        Rule { pattern: "fdisk", tier: RiskTier::Dangerous },
        Rule { pattern: "sudo", tier: RiskTier::Dangerous },
        Rule { pattern: "su -", tier: RiskTier::Dangerous },
        Rule { pattern: "kill", tier: RiskTier::Dangerous },
        Rule { pattern: "dd if=", tier: RiskTier::Dangerous },
        Rule { pattern: "of=/dev/", tier: RiskTier::Dangerous },
        Rule { pattern: "> /dev/sd", tier: RiskTier::Dangerous },
        Rule { pattern: "shutdown", tier: RiskTier::Dangerous },
        Rule { pattern: "reboot", tier: RiskTier::Dangerous },
        Rule { pattern: "poweroff", tier: RiskTier::Dangerous },
        Rule { pattern: "halt", tier: RiskTier::Dangerous },
    ];
    assert(rule_views(table@) =~= command_rules());
    table
}

/// The table for paths.
pub fn path_table() -> (table: Vec<Rule>)
    ensures
        rule_views(table@) == path_rules(),
{
    let table = vec![
        Rule { pattern: "/etc/", tier: RiskTier::Dangerous },
        Rule { pattern: "/bin/", tier: RiskTier::Dangerous },
        Rule { pattern: "/sbin/", tier: RiskTier::Dangerous },
        Rule { pattern: "/boot/", tier: RiskTier::Dangerous },
        Rule { pattern: "/lib/", tier: RiskTier::Dangerous },
        Rule { pattern: "/root/", tier: RiskTier::Dangerous },
        Rule { pattern: "/sys/", tier: RiskTier::Dangerous },
        Rule { pattern: "/proc/", tier: RiskTier::Dangerous },
        Rule { pattern: "/dev/", tier: RiskTier::Dangerous },
        Rule { pattern: ".ssh/", tier: RiskTier::Dangerous },
        Rule { pattern: ".gnupg/", tier: RiskTier::Dangerous },
        Rule { pattern: ".aws/", tier: RiskTier::Dangerous },
        Rule { pattern: "C:/Windows/", tier: RiskTier::Dangerous },
    ];
    assert(rule_views(table@) =~= path_rules());
    table
}

/// Classifies a text under a table.
pub fn classify(table: &Vec<Rule>, text: &Vec<char>) -> (tier: RiskTier)
    ensures
        tier == tier_under(rule_views(table@), text@),
{
    let ghost rules = rule_views(table@);
    let mut k: usize = 0;
    while k < table.len()
        invariant
            k <= table.len(),
            rules == rule_views(table@),
            forall|j: int| 0 <= j < k ==> !hits(rules, text@, j),
        decreases table.len() - k,
    {
        let rule = table[k];
        if rule.tier == RiskTier::Dangerous {
            let pattern = chars_of(rule.pattern);
            if has_infix(text, &pattern) {
                assert(hits(rules, text@, k as int));
                return RiskTier::Dangerous;
            }
        }
        k = k + 1;
    }
    RiskTier::Normal
}

/// A path with every backslash replaced by a forward slash.
pub fn normalize(path: &Vec<char>) -> (r: Vec<char>)
    ensures
        r@ == normalized(path@),
{
    let mut r: Vec<char> = Vec::new();
    let mut i: usize = 0;
    while i < path.len()
        invariant
            i <= path.len(),
            r@ == normalized(path@.take(i as int)),
        decreases path.len() - i,
    {
        let c = path[i];
        r.push(if c == '\\' { '/' } else { c });
        i = i + 1;
        assert(r@ =~= normalized(path@.take(i as int)));
    }
    assert(path@.take(path.len() as int) =~= path@);
    r
}

/// Classifies a command line: the program and its arguments as one text.
pub fn classify_command(command_line: &str) -> (tier: RiskTier)
    ensures
        tier == command_tier(command_line@),
{
    let line = lower_all(&chars_of(command_line));
    classify(&command_table(), &line)
}

/// Classifies a path. Only the classification sees the normalized path:
/// the caller goes on with the path as it was given.
pub fn classify_path(path: &str) -> (tier: RiskTier)
    ensures
        tier == path_tier(path@),
{
    let normal = normalize(&chars_of(path));
    classify(&path_table(), &normal)
}

/// Normalizing a path normalizes each part of it in place.
pub proof fn lemma_normalized_occurrence(hay: Seq<char>, needle: Seq<char>, at: int)
    requires
        occurs_at(hay, needle, at),
    ensures
        occurs_at(normalized(hay), normalized(needle), at),
{
    assert(normalized(hay).subrange(at, at + needle.len()) =~= normalized(
        hay.subrange(at, at + needle.len()),
    ));
}

/// Every line of both tables is dangerous.
pub proof fn lemma_tables_are_dangerous()
    ensures
        forall|k: int| 0 <= k < command_rules().len() ==> (#[trigger] command_rules()[k]).1
            == RiskTier::Dangerous,
        forall|k: int| 0 <= k < path_rules().len() ==> (#[trigger] path_rules()[k]).1
            == RiskTier::Dangerous,
{
}

/// The patterns of the command table are in lower case already.
pub proof fn lemma_command_patterns_are_lower_case()
    ensures
        forall|k: int| 0 <= k < command_rules().len() ==> lowered(
            (#[trigger] command_rules()[k]).0,
        ) == command_rules()[k].0,
{
    reveal_strlit("rm -r");
    reveal_strlit("rm -f");
    reveal_strlit("rmdir /s");
    reveal_strlit("del /f");
    reveal_strlit("mkfs");
    reveal_strlit("format ");
    reveal_strlit("fdisk");
    reveal_strlit("sudo");
    reveal_strlit("su -");
    reveal_strlit("kill");
    reveal_strlit("dd if=");
    reveal_strlit("of=/dev/");
    reveal_strlit("> /dev/sd");
    reveal_strlit("shutdown");
    reveal_strlit("reboot");
    reveal_strlit("poweroff");
    reveal_strlit("halt");
    assert forall|k: int| 0 <= k < command_rules().len() implies lowered(
        (#[trigger] command_rules()[k]).0,
    ) == command_rules()[k].0 by {
        assert(lowered(command_rules()[k].0) =~= command_rules()[k].0);
    }
}

/// The patterns of the path table hold no backslash.
pub proof fn lemma_path_patterns_are_normal()
    ensures
        forall|k: int| 0 <= k < path_rules().len() ==> normalized((#[trigger] path_rules()[k]).0)
            == path_rules()[k].0,
{
    reveal_strlit("/etc/");
    reveal_strlit("/bin/");
    reveal_strlit("/sbin/");
    reveal_strlit("/boot/");
    reveal_strlit("/lib/");
    reveal_strlit("/root/");
    reveal_strlit("/sys/");
    reveal_strlit("/proc/");
    reveal_strlit("/dev/");
    reveal_strlit(".ssh/");
    reveal_strlit(".gnupg/");
    reveal_strlit(".aws/");
    reveal_strlit("C:/Windows/");
    assert forall|k: int| 0 <= k < path_rules().len() implies normalized(
        (#[trigger] path_rules()[k]).0,
    ) == path_rules()[k].0 by {
        assert(normalized(path_rules()[k].0) =~= path_rules()[k].0);
    }
}

/// A command line is dangerous when some part of it, in whatever mix of
/// capitals and small letters, spells a pattern of the command table.
pub proof fn lemma_command_with_pattern_in_any_case(line: Seq<char>, part: Seq<char>, k: int)
    requires
        0 <= k < command_rules().len(),
        contains(line, part),
        lowered(part) == command_rules()[k].0,
    ensures
        command_tier(line) == RiskTier::Dangerous,
{
    lemma_tables_are_dangerous();
    let at = choose|at: int| occurs_at(line, part, at);
    lemma_lowered_occurrence(line, part, at);
    assert(hits(command_rules(), lowered(line), k));
}

/// A command line that holds a pattern of the command table is dangerous.
pub proof fn lemma_command_with_pattern(line: Seq<char>, k: int)
    requires
        0 <= k < command_rules().len(),
        contains(line, command_rules()[k].0),
    ensures
        command_tier(line) == RiskTier::Dangerous,
{
    lemma_command_patterns_are_lower_case();
    lemma_command_with_pattern_in_any_case(line, command_rules()[k].0, k);
}

/// A path is dangerous when some part of it, with whatever mix of the two
/// separators, spells a pattern of the path table.
pub proof fn lemma_path_with_pattern_in_any_form(path: Seq<char>, part: Seq<char>, k: int)
    requires
        0 <= k < path_rules().len(),
        contains(path, part),
        normalized(part) == path_rules()[k].0,
    ensures
        path_tier(path) == RiskTier::Dangerous,
{
    lemma_tables_are_dangerous();
    let at = choose|at: int| occurs_at(path, part, at);
    lemma_normalized_occurrence(path, part, at);
    assert(hits(path_rules(), normalized(path), k));
}

/// A path that holds a pattern of the path table is dangerous.
pub proof fn lemma_path_with_pattern(path: Seq<char>, k: int)
    requires
        0 <= k < path_rules().len(),
        contains(path, path_rules()[k].0),
    ensures
        path_tier(path) == RiskTier::Dangerous,
{
    lemma_path_patterns_are_normal();
    lemma_path_with_pattern_in_any_form(path, path_rules()[k].0, k);
}

/// Classification does not tell capitals from small letters.
pub proof fn lemma_command_tier_ignores_case(line: Seq<char>)
    ensures
        command_tier(lowered(line)) == command_tier(line),
{
    lemma_lowered_idempotent(line);
}

/// Classification does not tell one separator from the other.
pub proof fn lemma_path_tier_ignores_separator(path: Seq<char>)
    ensures
        path_tier(normalized(path)) == path_tier(path),
{
    assert(normalized(normalized(path)) =~= normalized(path));
}

} // verus!

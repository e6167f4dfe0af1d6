//! The status vocabulary and the rules that map a resource's kind and raw
//! status text to it.
//!
//! Two ordered rule lists exist, one for pods and one for every other kind,
//! and in each the first rule that matches wins. The lists differ on purpose,
//! in order and in the words they look for: a pod's status is never searched
//! for "crash" or "ready", and for a pod "running" outranks "error".

use vstd::prelude::*;
use crate::text::{
    ascii_lower, chars_of, contains, eq_ignoring_ascii_case, lowercase_of, occurs_in,
    same_ignoring_ascii_case, to_lowercase,
};

verus! {

/// The closed set of labels a status is mapped to.
#[derive(Clone, Copy, Debug, PartialEq, Eq, Structural)]
pub enum StatusLabel {
    Running,
    Pending,
    Error,
    Warning,
}

impl StatusLabel {
    /// The label as the host sees it.
    pub open spec fn text(self) -> Seq<char> {
        match self {
            StatusLabel::Running => "running"@,
            StatusLabel::Pending => "pending"@,
            StatusLabel::Error => "error"@,
            StatusLabel::Warning => "warning"@,
        }
    }

    /// The label as the host sees it.
    pub fn as_str(self) -> (s: &'static str)
        ensures
            s@ == self.text(),
    {
        match self {
            StatusLabel::Running => "running",
            StatusLabel::Pending => "pending",
            StatusLabel::Error => "error",
            StatusLabel::Warning => "warning",
        }
    }
}

/// One rule of a list: a word to look for, and the label a status gets
/// that holds it.
#[derive(Clone, Copy, Debug)]
pub struct Rule {
    pub word: &'static str,
    pub label: StatusLabel,
}

/// A rule as contracts see it.
pub struct RuleView {
    pub word: Seq<char>,
    pub label: StatusLabel,
}

impl View for Rule {
    type V = RuleView;

    open spec fn view(&self) -> RuleView {
        RuleView { word: self.word@, label: self.label }
    }
}

/// A rule list as contracts see it.
pub open spec fn rules_view(rules: Seq<Rule>) -> Seq<RuleView> {
    rules.map_values(|r: Rule| r@)
}

/// The rules for a pod, highest rank first.
pub open spec fn pod_rules() -> Seq<RuleView> {
    seq![
        RuleView { word: "running"@, label: StatusLabel::Running },
        RuleView { word: "pending"@, label: StatusLabel::Pending },
        RuleView { word: "failed"@, label: StatusLabel::Error },
        RuleView { word: "error"@, label: StatusLabel::Error },
    ]
}

/// The rules for every kind but a pod, highest rank first.
pub open spec fn other_rules() -> Seq<RuleView> {
    seq![
        RuleView { word: "error"@, label: StatusLabel::Error },
        RuleView { word: "crash"@, label: StatusLabel::Error },
        RuleView { word: "pending"@, label: StatusLabel::Pending },
        RuleView { word: "running"@, label: StatusLabel::Running },
        RuleView { word: "ready"@, label: StatusLabel::Running },
    ]
}

/// The label of the first rule whose word is a part of `status`, and
/// `Warning` where no rule has one.
pub open spec fn first_match(rules: Seq<RuleView>, status: Seq<char>) -> StatusLabel
    decreases rules.len(),
{
    if rules.len() == 0 {
        StatusLabel::Warning
    } else if occurs_in(status, rules[0].word) {
        rules[0].label
    } else {
        first_match(rules.drop_first(), status)
    }
}

/// A kind names a pod when it reads "pod" in any mix of ASCII cases.
pub open spec fn is_pod(kind: Seq<char>) -> bool {
    same_ignoring_ascii_case(kind, "pod"@)
}

/// The label for a lower-cased status, by the rule list of its kind.
pub open spec fn label_of(pod: bool, status: Seq<char>) -> StatusLabel {
    first_match(if pod { pod_rules() } else { other_rules() }, status)
}

/// The pod rules written out as nested choices.
pub open spec fn pod_label(status: Seq<char>) -> StatusLabel {
    if occurs_in(status, "running"@) {
        StatusLabel::Running
    } else if occurs_in(status, "pending"@) {
        StatusLabel::Pending
    } else if occurs_in(status, "failed"@) || occurs_in(status, "error"@) {
        StatusLabel::Error
    } else {
        StatusLabel::Warning
    }
}

/// The rules for the other kinds written out as nested choices.
pub open spec fn other_label(status: Seq<char>) -> StatusLabel {
    if occurs_in(status, "error"@) || occurs_in(status, "crash"@) {
        StatusLabel::Error
    } else if occurs_in(status, "pending"@) {
        StatusLabel::Pending
    } else if occurs_in(status, "running"@) || occurs_in(status, "ready"@) {
        StatusLabel::Running
    } else {
        StatusLabel::Warning
    }
}

/// The kinds that name a pod are the three letters p, o, d, each a capital
/// or a small letter.
pub proof fn pod_in_any_case(kind: Seq<char>)
    ensures
        is_pod(kind) <==> {
            &&& kind.len() == 3
            &&& (kind[0] == 'p' || kind[0] == 'P')
            &&& (kind[1] == 'o' || kind[1] == 'O')
            &&& (kind[2] == 'd' || kind[2] == 'D')
        },
{
    reveal_strlit("pod");
    let pod = "pod"@;
    if kind.len() == 3 {
        assert(ascii_lower(pod[0]) == 'p' && ascii_lower(pod[1]) == 'o' && ascii_lower(pod[2]) == 'd');
        assert(ascii_lower(kind[0]) == 'p' <==> kind[0] == 'p' || kind[0] == 'P');
        assert(ascii_lower(kind[1]) == 'o' <==> kind[1] == 'o' || kind[1] == 'O');
        assert(ascii_lower(kind[2]) == 'd' <==> kind[2] == 'd' || kind[2] == 'D');
    }
}

/// Walking a list whose first rule is `head` means trying `head`, then
/// walking the rest.
proof fn first_match_unfolds(head: RuleView, rest: Seq<RuleView>, status: Seq<char>)
    ensures
        first_match(seq![head] + rest, status) == if occurs_in(status, head.word) {
            head.label
        } else {
            first_match(rest, status)
        },
{
    let rules = seq![head] + rest;
    assert(rules[0] == head);
    assert(rules.drop_first() =~= rest);
}

/// For a pod, "running" outranks "pending", which outranks "failed" and
/// "error"; a status with none of these words is a warning.
pub proof fn pod_rules_in_order(status: Seq<char>)
    ensures
        label_of(true, status) == pod_label(status),
{
    let r0 = pod_rules()[0];
    let r1 = pod_rules()[1];
    let r2 = pod_rules()[2];
    let r3 = pod_rules()[3];
    assert(pod_rules() =~= seq![r0] + seq![r1, r2, r3]);
    assert(seq![r1, r2, r3] =~= seq![r1] + seq![r2, r3]);
    assert(seq![r2, r3] =~= seq![r2] + seq![r3]);
    assert(seq![r3] =~= seq![r3] + Seq::<RuleView>::empty());
    first_match_unfolds(r0, seq![r1, r2, r3], status);
    first_match_unfolds(r1, seq![r2, r3], status);
    first_match_unfolds(r2, seq![r3], status);
    first_match_unfolds(r3, Seq::<RuleView>::empty(), status);
}

/// For a kind that is no pod, "error" and "crash" outrank "pending", which
/// outranks "running" and "ready"; a status with none of these words is a
/// warning.
pub proof fn other_rules_in_order(status: Seq<char>)
    ensures
        label_of(false, status) == other_label(status),
{
    let r0 = other_rules()[0];
    let r1 = other_rules()[1];
    let r2 = other_rules()[2];
    let r3 = other_rules()[3];
    let r4 = other_rules()[4];
    assert(other_rules() =~= seq![r0] + seq![r1, r2, r3, r4]);
    assert(seq![r1, r2, r3, r4] =~= seq![r1] + seq![r2, r3, r4]);
    assert(seq![r2, r3, r4] =~= seq![r2] + seq![r3, r4]);
    assert(seq![r3, r4] =~= seq![r3] + seq![r4]);
    assert(seq![r4] =~= seq![r4] + Seq::<RuleView>::empty());
    first_match_unfolds(r0, seq![r1, r2, r3, r4], status);
    first_match_unfolds(r1, seq![r2, r3, r4], status);
    first_match_unfolds(r2, seq![r3, r4], status);
    first_match_unfolds(r3, seq![r4], status);
    first_match_unfolds(r4, Seq::<RuleView>::empty(), status);
}

/// The two lists differ on a crash: a status that holds "crash" and none of
/// the words of the pod list is a warning for a pod and an error for every
/// other kind.
pub proof fn crash_is_an_error_except_for_pods(status: Seq<char>)
    requires
        occurs_in(status, "crash"@),
        !occurs_in(status, "running"@),
        !occurs_in(status, "pending"@),
        !occurs_in(status, "failed"@),
        !occurs_in(status, "error"@),
    ensures
        label_of(true, status) == StatusLabel::Warning,
        label_of(false, status) == StatusLabel::Error,
{
    pod_rules_in_order(status);
    other_rules_in_order(status);
}

/// The rule list for a pod.
pub fn pod_rule_table() -> (table: Vec<Rule>)
    ensures
        rules_view(table@) == pod_rules(),
{
    let table = vec![
        Rule { word: "running", label: StatusLabel::Running },
        Rule { word: "pending", label: StatusLabel::Pending },
        Rule { word: "failed", label: StatusLabel::Error },
        Rule { word: "error", label: StatusLabel::Error },
    ];
    assert(rules_view(table@) =~= pod_rules());
    table
}

/// The rule list for every kind but a pod.
pub fn other_rule_table() -> (table: Vec<Rule>)
    ensures
        rules_view(table@) == other_rules(),
{
    let table = vec![
        Rule { word: "error", label: StatusLabel::Error },
        Rule { word: "crash", label: StatusLabel::Error },
        Rule { word: "pending", label: StatusLabel::Pending },
        Rule { word: "running", label: StatusLabel::Running },
        Rule { word: "ready", label: StatusLabel::Running },
    ];
    assert(rules_view(table@) =~= other_rules());
    table
}

/// Walks a rule list from its first rule and gives the label of the first
/// one whose word is a part of `status`; `Warning` where none is.
pub fn apply_rules(rules: &Vec<Rule>, status: &Vec<char>) -> (label: StatusLabel)
    ensures
        label == first_match(rules_view(rules@), status@),
{
    let ghost all = rules_view(rules@);
    let mut i: usize = 0;
    assert(all.skip(0) =~= all);
    while i < rules.len()
        invariant
            i <= rules.len(),
            all == rules_view(rules@),
            first_match(all, status@) == first_match(all.skip(i as int), status@),
        decreases rules.len() - i,
    {
        let rule = rules[i];
        let word = chars_of(rule.word);
        assert(all.skip(i as int)[0] == rule@);
        if contains(status, &word) {
            return rule.label;
        }
        assert(all.skip(i as int).drop_first() =~= all.skip(i + 1));
        i += 1;
    }
    StatusLabel::Warning
}

/// Decides whether a kind names a pod.
pub fn kind_is_pod(kind: &str) -> (pod: bool)
    ensures
        pod == is_pod(kind@),
{
    let given = chars_of(kind);
    let wanted = chars_of("pod");
    eq_ignoring_ascii_case(&given, &wanted)
}

/// Labels a status that has already been lower-cased.
pub fn classify_lowered(pod: bool, lowered: &str) -> (label: StatusLabel)
    ensures
        label == label_of(pod, lowered@),
{
    let status = chars_of(lowered);
    let table = if pod {
        pod_rule_table()
    } else {
        other_rule_table()
    };
    apply_rules(&table, &status)
}

/// Labels a resource: the status is lower-cased, then matched against the
/// rule list of its kind.
pub fn classify(kind: &str, status: &str) -> (label: StatusLabel)
    ensures
        label == label_of(is_pod(kind@), lowercase_of(status@)),
{
    let lowered = to_lowercase(status);
    classify_lowered(kind_is_pod(kind), lowered.as_str())
}

/// The label of a resource as text for the host. Never fails: every pair of
/// texts has exactly one label.
pub fn shape_resource_status(kind: String, status: String) -> (label: String)
    ensures
        label@ == label_of(is_pod(kind@), lowercase_of(status@)).text(),
{
    classify(kind.as_str(), status.as_str()).as_str().to_owned()
}

/// An observed resource: its category and its raw status text.
#[derive(Clone, Debug)]
pub struct ResourceShape {
    pub kind: String,
    pub status: String,
}

impl ResourceShape {
    /// The label of this resource.
    pub fn label(&self) -> (label: StatusLabel)
        ensures
            label == label_of(is_pod(self.kind@), lowercase_of(self.status@)),
    {
        classify(self.kind.as_str(), self.status.as_str())
    }
}

} // verus!

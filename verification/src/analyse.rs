//! Rule filters and the registry of known rules of the analyser.
use std::marker::PhantomData;
use vstd::prelude::*;

use crate::strings::{concat3, same_text};
use crate::text::TextRange;

verus! {

/// A filter on rules: a whole group, or one rule of a group.
#[derive(Clone, Copy, Debug, PartialEq, Eq, Hash)]
pub enum RuleFilter<'a> {
    Group(&'a str),
    Rule(&'a str, &'a str),
}

impl<'a> RuleFilter<'a> {
    /// The name of the group the filter is about.
    pub open spec fn group_name(self) -> Seq<char> {
        match self {
            RuleFilter::Group(group) => group@,
            RuleFilter::Rule(group, _) => group@,
        }
    }

    /// The name of the group the filter is about.
    pub fn group(self) -> (r: &'a str)
        ensures
            r@ == self.group_name(),
    {
        match self {
            RuleFilter::Group(group) => group,
            RuleFilter::Rule(group, _) => group,
        }
    }

    /// Whether the filter is about the group named `group_name`.
    pub fn match_group(self, group_name: &str) -> (r: bool)
        ensures
            r == (self.group_name() == group_name@),
    {
        match self {
            RuleFilter::Group(group) => same_text(group, group_name),
            RuleFilter::Rule(group, _) => same_text(group, group_name),
        }
    }

    /// Whether the filter lets the rule `rule_name` of the group
    /// `group_name` through: a group filter takes every rule of its group.
    pub fn match_rule(self, group_name: &str, rule_name: &str) -> (r: bool)
        ensures
            r == match self {
                RuleFilter::Group(group) => group@ == group_name@,
                RuleFilter::Rule(group, rule) => group@ == group_name@ && rule@ == rule_name@,
            },
    {
        match self {
            RuleFilter::Group(group) => same_text(group, group_name),
            RuleFilter::Rule(group, rule) => same_text(group, group_name) && same_text(rule, rule_name),
        }
    }

    /// The filter as text: `group` or `group/rule`.
    pub fn to_text(self) -> (r: String)
        ensures
            r@ == match self {
                RuleFilter::Group(group) => group@,
                RuleFilter::Rule(group, rule) => group@ + seq!['/'] + rule@,
            },
    {
        match self {
            RuleFilter::Group(group) => group.to_owned(),
            RuleFilter::Rule(group, rule) => {
                let slash = "/";
                proof {
                    reveal_strlit("/");
                }
                concat3(group, slash, rule)
            },
        }
    }
}

/// The kind of work a rule group does.
#[derive(Clone, Copy, Debug, PartialEq, Eq, Hash, Structural)]
pub enum RuleCategory {
    Syntax,
    Lint,
    Action,
    Transformation,
}

/// A set of rule categories.
#[derive(Clone, Copy, Debug, PartialEq, Eq)]
pub struct RuleCategories {
    syntax: bool,
    lint: bool,
    action: bool,
    transformation: bool,
}

impl RuleCategories {
    /// Whether `category` is in the set.
    pub closed spec fn has(self, category: RuleCategory) -> bool {
        match category {
            RuleCategory::Syntax => self.syntax,
            RuleCategory::Lint => self.lint,
            RuleCategory::Action => self.action,
            RuleCategory::Transformation => self.transformation,
        }
    }

    /// Every category.
    pub fn all() -> (r: RuleCategories)
        ensures
            forall|c: RuleCategory| r.has(c),
    {
        RuleCategories { syntax: true, lint: true, action: true, transformation: true }
    }

    /// No category.
    pub fn empty() -> (r: RuleCategories)
        ensures
            forall|c: RuleCategory| !r.has(c),
    {
        RuleCategories { syntax: false, lint: false, action: false, transformation: false }
    }

    /// Adds `category` to the set.
    pub fn insert(&mut self, category: RuleCategory)
        ensures
            forall|c: RuleCategory| final(self).has(c) == (old(self).has(c) || c == category),
    {
        match category {
            RuleCategory::Syntax => self.syntax = true,
            RuleCategory::Lint => self.lint = true,
            RuleCategory::Action => self.action = true,
            RuleCategory::Transformation => self.transformation = true,
        }
    }

    /// Whether `category` is in the set.
    pub fn contains(&self, category: RuleCategory) -> (r: bool)
        ensures
            r == self.has(category),
    {
        match category {
            RuleCategory::Syntax => self.syntax,
            RuleCategory::Lint => self.lint,
            RuleCategory::Action => self.action,
            RuleCategory::Transformation => self.transformation,
        }
    }
}

impl Default for RuleCategories {
    /// Every category.
    fn default() -> (r: RuleCategories)
        ensures
            forall|c: RuleCategory| r.has(c),
    {
        RuleCategories::all()
    }
}

/// Which rules a run of the analyser executes, and where their signals may be raised.
#[derive(Clone, Copy, Debug)]
pub struct AnalysisFilter<'a> {
    /// Only rules of these categories emit signals.
    pub categories: RuleCategories,
    /// Only rules that these filters let through emit signals; with `None`, every rule does.
    pub enabled_rules: Option<&'a [RuleFilter<'a>]>,
    /// Rules that these filters let through emit no signal.
    pub disabled_rules: &'a [RuleFilter<'a>],
    /// Only signals in this range are emitted.
    pub range: Option<TextRange>,
}

/// Some filter of `filters` is about the group `group`.
pub open spec fn any_matches_group(filters: Seq<RuleFilter>, group: Seq<char>) -> bool {
    exists|i: int| 0 <= i < filters.len() && (#[trigger] filters[i]).group_name() == group
}

/// Some group filter of `filters` is about the group `group`.
pub open spec fn any_group_filter_for(filters: Seq<RuleFilter>, group: Seq<char>) -> bool {
    exists|i: int| 0 <= i < filters.len() && (#[trigger] filters[i]) is Group && filters[i].group_name() == group
}

/// `filter` lets the rule `rule` of the group `group` through.
pub open spec fn lets_rule_through(filter: RuleFilter, group: Seq<char>, rule: Seq<char>) -> bool {
    match filter {
        RuleFilter::Group(g) => g@ == group,
        RuleFilter::Rule(g, r) => g@ == group && r@ == rule,
    }
}

/// Some filter of `filters` lets the rule `rule` of the group `group` through.
pub open spec fn any_lets_rule_through(filters: Seq<RuleFilter>, group: Seq<char>, rule: Seq<char>) -> bool {
    exists|i: int| 0 <= i < filters.len() && lets_rule_through(#[trigger] filters[i], group, rule)
}

impl<'a> AnalysisFilter<'a> {
    /// The filter lets the group `group` of category `category` run: the
    /// category is selected, an enabled filter (if there is a list) is about
    /// the group, and no disabled group filter is.
    pub open spec fn spec_match_group(self, group: Seq<char>, category: RuleCategory) -> bool {
        &&& self.categories.has(category)
        &&& match self.enabled_rules {
            None => true,
            Some(enabled) => any_matches_group(enabled@, group),
        }
        &&& !any_group_filter_for(self.disabled_rules@, group)
    }

    /// The filter lets the rule `rule` of the group `group` of category
    /// `category` run: the category is selected, an enabled filter (if there
    /// is a list) lets it through, and no disabled filter does.
    pub open spec fn spec_match_rule(self, group: Seq<char>, rule: Seq<char>, category: RuleCategory) -> bool {
        &&& self.categories.has(category)
        &&& match self.enabled_rules {
            None => true,
            Some(enabled) => any_lets_rule_through(enabled@, group, rule),
        }
        &&& !any_lets_rule_through(self.disabled_rules@, group, rule)
    }

    /// A filter that runs the rules `enabled_rules` lets through, of every
    /// category, anywhere.
    pub fn from_enabled_rules(enabled_rules: &'a [RuleFilter<'a>]) -> (r: Self)
        ensures
            r.enabled_rules == Some(enabled_rules),
            forall|c: RuleCategory| r.categories.has(c),
            r.disabled_rules@.len() == 0,
            r.range is None,
    {
        AnalysisFilter {
            categories: RuleCategories::all(),
            enabled_rules: Some(enabled_rules),
            disabled_rules: &[],
            range: None,
        }
    }

    /// Whether rules of `category` may run.
    pub fn match_category(&self, category: RuleCategory) -> (r: bool)
        ensures
            r == self.categories.has(category),
    {
        self.categories.contains(category)
    }

    /// Whether the group `group` of category `category` may run.
    pub fn match_group(&self, group: &str, category: RuleCategory) -> (r: bool)
        ensures
            r == self.spec_match_group(group@, category),
    {
        if !self.match_category(category) {
            return false;
        }
        let enabled = match self.enabled_rules {
            None => true,
            Some(enabled_rules) => {
                let mut found = false;
                let mut i: usize = 0;
                while i < enabled_rules.len()
                    invariant
                        i <= enabled_rules@.len(),
                        found == exists|j: int| 0 <= j < i && (#[trigger] enabled_rules@[j]).group_name() == group@,
                    decreases enabled_rules.len() - i,
                {
                    if enabled_rules[i].match_group(group) {
                        found = true;
                    }
                    i = i + 1;
                }
                found
            },
        };
        if !enabled {
            return false;
        }
        let mut disabled = false;
        let mut i: usize = 0;
        while i < self.disabled_rules.len()
            invariant
                i <= self.disabled_rules@.len(),
                disabled == exists|j: int|
                    0 <= j < i && (#[trigger] self.disabled_rules@[j]) is Group
                        && self.disabled_rules@[j].group_name() == group@,
            decreases self.disabled_rules.len() - i,
        {
            let f = self.disabled_rules[i];
            if matches!(f, RuleFilter::Group(_)) && f.match_group(group) {
                disabled = true;
            }
            i = i + 1;
        }
        !disabled
    }

    /// Whether the rule `rule` of the group `group` of category `category` may run.
    pub fn match_rule(&self, group: &str, rule: &str, category: RuleCategory) -> (r: bool)
        ensures
            r == self.spec_match_rule(group@, rule@, category),
    {
        if !self.match_category(category) {
            return false;
        }
        let enabled = match self.enabled_rules {
            None => true,
            Some(enabled_rules) => {
                let mut found = false;
                let mut i: usize = 0;
                while i < enabled_rules.len()
                    invariant
                        i <= enabled_rules@.len(),
                        found == exists|j: int| 0 <= j < i && lets_rule_through(#[trigger] enabled_rules@[j], group@, rule@),
                    decreases enabled_rules.len() - i,
                {
                    if enabled_rules[i].match_rule(group, rule) {
                        found = true;
                    }
                    i = i + 1;
                }
                found
            },
        };
        if !enabled {
            return false;
        }
        let mut disabled = false;
        let mut i: usize = 0;
        while i < self.disabled_rules.len()
            invariant
                i <= self.disabled_rules@.len(),
                disabled == exists|j: int| 0 <= j < i && lets_rule_through(#[trigger] self.disabled_rules@[j], group@, rule@),
            decreases self.disabled_rules.len() - i,
        {
            if self.disabled_rules[i].match_rule(group, rule) {
                disabled = true;
            }
            i = i + 1;
        }
        !disabled
    }
}

/// A disabled filter always wins: when a filter in the disabled list lets a
/// rule through (a filter for the rule itself, or for its whole group), the
/// rule does not run, whatever the enabled list and the categories say; and a
/// disabled filter for a whole group stops the group.
pub proof fn lemma_disabled_filters_stop_rules(
    filter: AnalysisFilter,
    group: Seq<char>,
    rule: Seq<char>,
    category: RuleCategory,
    i: int,
)
    requires
        0 <= i < filter.disabled_rules@.len(),
    ensures
        (filter.disabled_rules@[i] matches RuleFilter::Rule(g, r) && g@ == group && r@ == rule) ==> !filter.spec_match_rule(
            group,
            rule,
            category,
        ),
        (filter.disabled_rules@[i] matches RuleFilter::Group(g) && g@ == group) ==> !filter.spec_match_rule(
            group,
            rule,
            category,
        ) && !filter.spec_match_group(group, category),
{
    let d = filter.disabled_rules@;
    assert(lets_rule_through(d[i], group, rule) ==> any_lets_rule_through(d, group, rule));
    assert((d[i] is Group && d[i].group_name() == group) ==> any_group_filter_for(d, group));
}

/// A rule runs only where its category is selected and, when there is an
/// enabled list, only where a filter in it is for the rule or for its group.
pub proof fn lemma_rules_run_only_where_enabled(
    filter: AnalysisFilter,
    group: Seq<char>,
    rule: Seq<char>,
    category: RuleCategory,
)
    requires
        filter.spec_match_rule(group, rule, category),
    ensures
        filter.categories.has(category),
        filter.enabled_rules matches Some(enabled) ==> exists|i: int|
            0 <= i < enabled@.len() && ((#[trigger] enabled@[i] matches RuleFilter::Group(g) && g@ == group) || (
            enabled@[i] matches RuleFilter::Rule(g, r) && g@ == group && r@ == rule)),
{
}

impl<'a> Default for AnalysisFilter<'a> {
    /// Every rule of every category, anywhere.
    fn default() -> (r: Self)
        ensures
            r.enabled_rules is None,
            forall|c: RuleCategory| r.categories.has(c),
            r.disabled_rules@.len() == 0,
            r.range is None,
    {
        AnalysisFilter { categories: RuleCategories::all(), enabled_rules: None, disabled_rules: &[], range: None }
    }
}

/// The key of a rule group.
#[derive(Clone, Copy, Debug, PartialEq, Eq, Hash)]
pub struct GroupKey {
    pub group: &'static str,
}

impl GroupKey {
    /// The key of the group `group`.
    pub fn new(group: &'static str) -> (r: GroupKey)
        ensures
            r.group == group,
    {
        GroupKey { group }
    }
}

/// The key of a rule: its group and its name.
#[derive(Clone, Copy, Debug, PartialEq, Eq, Hash)]
pub struct RuleKey {
    pub group: &'static str,
    pub rule: &'static str,
}

impl RuleKey {
    /// The key of the rule `rule` of the group `group`.
    pub fn new(group: &'static str, rule: &'static str) -> (r: RuleKey)
        ensures
            r.group == group,
            r.rule == rule,
    {
        RuleKey { group, rule }
    }
}

/// The key of a rule in the registry: its group and its name.
#[derive(Clone, Copy, Debug, PartialEq, Eq, PartialOrd, Ord)]
pub struct MetadataKey {
    pub inner: (&'static str, &'static str),
}

impl MetadataKey {
    /// The key of the rule's group.
    pub fn into_group_key(self) -> (r: GroupKey)
        ensures
            r.group == self.inner.0,
    {
        let (group, _) = self.inner;
        GroupKey::new(group)
    }

    /// The key of the rule.
    pub fn into_rule_key(self) -> (r: RuleKey)
        ensures
            r.group == self.inner.0,
            r.rule == self.inner.1,
    {
        let (group, rule) = self.inner;
        RuleKey::new(group, rule)
    }
}

/// The rules the analyser knows, each once, by group and name.
pub struct MetadataRegistry {
    inner: Vec<MetadataKey>,
}

impl MetadataRegistry {
    /// The group and rule names of the known rules.
    pub closed spec fn rules(&self) -> Set<(Seq<char>, Seq<char>)> {
        Set::new(
            |k: (Seq<char>, Seq<char>)|
                exists|i: int|
                    0 <= i < self.inner@.len() && (#[trigger] self.inner@[i]).inner.0@ == k.0
                        && self.inner@[i].inner.1@ == k.1,
        )
    }

    /// No rule is listed twice.
    pub closed spec fn wf(&self) -> bool {
        forall|i: int, j: int|
            0 <= i < self.inner@.len() && 0 <= j < self.inner@.len() && (#[trigger] self.inner@[i]).inner.0@
                == (#[trigger] self.inner@[j]).inner.0@ && self.inner@[i].inner.1@ == self.inner@[j].inner.1@
                ==> i == j
    }

    /// A registry that knows no rule.
    pub fn new() -> (r: MetadataRegistry)
        ensures
            r.wf(),
            r.rules() == Set::<(Seq<char>, Seq<char>)>::empty(),
    {
        let r = MetadataRegistry { inner: Vec::new() };
        assert(r.rules() =~= Set::<(Seq<char>, Seq<char>)>::empty());
        r
    }

    /// The key of the group `group`, if a rule of that group is known.
    pub fn find_group(&self, group: &str) -> (r: Option<GroupKey>)
        ensures
            r is Some <==> exists|k: (Seq<char>, Seq<char>)| #[trigger] self.rules().contains(k) && k.0 == group@,
            r matches Some(key) ==> key.group@ == group@,
    {
        let mut i: usize = 0;
        while i < self.inner.len()
            invariant
                i <= self.inner@.len(),
                forall|j: int| 0 <= j < i ==> (#[trigger] self.inner@[j]).inner.0@ != group@,
            decreases self.inner.len() - i,
        {
            let key = self.inner[i];
            if same_text(key.inner.0, group) {
                proof {
                    let k = (key.inner.0@, key.inner.1@);
                    assert(self.rules().contains(k));
                }
                return Some(key.into_group_key());
            }
            i = i + 1;
        }
        proof {
            assert forall|k: (Seq<char>, Seq<char>)| #[trigger] self.rules().contains(k) implies k.0 != group@ by {
                let j = choose|j: int|
                    0 <= j < self.inner@.len() && (#[trigger] self.inner@[j]).inner.0@ == k.0
                        && self.inner@[j].inner.1@ == k.1;
            }
        }
        None
    }

    /// The key of the rule `rule` of the group `group`, if it is known.
    pub fn find_rule(&self, group: &str, rule: &str) -> (r: Option<RuleKey>)
        ensures
            r is Some <==> self.rules().contains((group@, rule@)),
            r matches Some(key) ==> key.group@ == group@ && key.rule@ == rule@,
    {
        let mut i: usize = 0;
        while i < self.inner.len()
            invariant
                i <= self.inner@.len(),
                forall|j: int|
                    0 <= j < i ==> !((#[trigger] self.inner@[j]).inner.0@ == group@ && self.inner@[j].inner.1@ == rule@),
            decreases self.inner.len() - i,
        {
            let key = self.inner[i];
            if same_text(key.inner.0, group) && same_text(key.inner.1, rule) {
                proof {
                    assert(self.rules().contains((group@, rule@)));
                }
                return Some(key.into_rule_key());
            }
            i = i + 1;
        }
        None
    }

    /// Adds the rule `rule` of the group `group`; a known rule stays once.
    pub fn insert_rule(&mut self, group: &'static str, rule: &'static str)
        requires
            old(self).wf(),
        ensures
            final(self).wf(),
            final(self).rules() == old(self).rules().insert((group@, rule@)),
    {
        if self.find_rule(group, rule).is_some() {
            assert(self.rules() =~= old(self).rules().insert((group@, rule@)));
            return;
        }
        let ghost before = self.inner@;
        self.inner.push(MetadataKey { inner: (group, rule) });
        proof {
            assert forall|k: (Seq<char>, Seq<char>)| #[trigger] self.rules().contains(k) == old(self).rules().insert(
                (group@, rule@),
            ).contains(k) by {
                if old(self).rules().contains(k) {
                    let j = choose|j: int|
                        0 <= j < before.len() && (#[trigger] before[j]).inner.0@ == k.0 && before[j].inner.1@ == k.1;
                    assert(self.inner@[j] == before[j]);
                }
                if self.rules().contains(k) {
                    let j = choose|j: int|
                        0 <= j < self.inner@.len() && (#[trigger] self.inner@[j]).inner.0@ == k.0
                            && self.inner@[j].inner.1@ == k.1;
                    if j < before.len() {
                        assert(before[j] == self.inner@[j]);
                    }
                }
                if k == (group@, rule@) {
                    assert(self.inner@[before.len() as int].inner.0@ == k.0);
                }
            }
            assert(self.rules() =~= old(self).rules().insert((group@, rule@)));
        }
    }
}

/// A rule added to a registry is found there afterwards, and every rule the
/// registry knew before is still known.
pub proof fn lemma_inserted_rule_is_found(
    before: MetadataRegistry,
    after: MetadataRegistry,
    group: Seq<char>,
    rule: Seq<char>,
    other: (Seq<char>, Seq<char>),
)
    requires
        after.rules() == before.rules().insert((group, rule)),
    ensures
        after.rules().contains((group, rule)),
        before.rules().contains(other) ==> after.rules().contains(other),
{
}

/// After the first `n` insertions, the rules known are the first `n` pairs.
proof fn lemma_registry_prefix(
    regs: Seq<MetadataRegistry>,
    pairs: Seq<(Seq<char>, Seq<char>)>,
    n: int,
)
    requires
        regs.len() == pairs.len() + 1,
        regs[0].rules() == Set::<(Seq<char>, Seq<char>)>::empty(),
        forall|i: int| 0 <= i < pairs.len() ==> #[trigger] regs[i + 1].rules() == regs[i].rules().insert(pairs[i]),
        0 <= n <= pairs.len(),
    ensures
        forall|k: (Seq<char>, Seq<char>)| #[trigger] regs[n].rules().contains(k) <==> exists|i: int| 0 <= i < n && pairs[i] == k,
    decreases n,
{
    if n > 0 {
        lemma_registry_prefix(regs, pairs, n - 1);
        let j = n - 1;
        assert(regs[j + 1].rules() == regs[j].rules().insert(pairs[j]));
        assert(j + 1 == n);
        assert forall|k: (Seq<char>, Seq<char>)| #[trigger] regs[n].rules().contains(k) implies exists|i: int| 0 <= i < n && pairs[i] == k by {
            if k != pairs[n - 1] {
                assert(regs[n - 1].rules().contains(k));
            }
        }
        assert forall|k: (Seq<char>, Seq<char>)| (exists|i: int| 0 <= i < n && pairs[i] == k) implies #[trigger] regs[n].rules().contains(k) by {
            let i = choose|i: int| 0 <= i < n && pairs[i] == k;
            if i < n - 1 {
                assert(regs[n - 1].rules().contains(k));
            }
        }
    }
}

/// Whatever rules are inserted, in any order and however often, into a new
/// registry: afterwards it knows a rule exactly when that rule was inserted,
/// and a group exactly when a rule of that group was.
pub proof fn lemma_registry_knows_what_was_inserted(
    regs: Seq<MetadataRegistry>,
    pairs: Seq<(Seq<char>, Seq<char>)>,
    group: Seq<char>,
    rule: Seq<char>,
)
    requires
        regs.len() == pairs.len() + 1,
        regs[0].rules() == Set::<(Seq<char>, Seq<char>)>::empty(),
        forall|i: int| 0 <= i < pairs.len() ==> #[trigger] regs[i + 1].rules() == regs[i].rules().insert(pairs[i]),
    ensures
        regs.last().rules().contains((group, rule)) <==> pairs.contains((group, rule)),
        (exists|k: (Seq<char>, Seq<char>)| #[trigger] regs.last().rules().contains(k) && k.0 == group)
            <==> (exists|i: int| 0 <= i < pairs.len() && (#[trigger] pairs[i]).0 == group),
{
    lemma_registry_prefix(regs, pairs, pairs.len() as int);
    assert(regs.last() == regs[pairs.len() as int]);
    if pairs.contains((group, rule)) {
        let i = choose|i: int| 0 <= i < pairs.len() && pairs[i] == (group, rule);
        assert(regs.last().rules().contains((group, rule)));
    }
    if exists|i: int| 0 <= i < pairs.len() && (#[trigger] pairs[i]).0 == group {
        let i = choose|i: int| 0 <= i < pairs.len() && (#[trigger] pairs[i]).0 == group;
        assert(regs.last().rules().contains(pairs[i]));
    }
    if exists|k: (Seq<char>, Seq<char>)| #[trigger] regs.last().rules().contains(k) && k.0 == group {
        let k = choose|k: (Seq<char>, Seq<char>)| #[trigger] regs.last().rules().contains(k) && k.0 == group;
        let i = choose|i: int| 0 <= i < pairs.len() && pairs[i] == k;
        assert(pairs[i].0 == group);
    }
}

impl Default for MetadataRegistry {
    /// A registry that knows no rule.
    fn default() -> (r: MetadataRegistry)
        ensures
            r.wf(),
            r.rules() == Set::<(Seq<char>, Seq<char>)>::empty(),
    {
        MetadataRegistry::new()
    }
}

/// Something the analyser raises when a rule reports: it can make a diagnostic.
pub trait AnalyzerSignal<T> {
    /// The signal can make its diagnostic.
    spec fn can_signal(&self) -> bool;

    /// The diagnostic of the signal, if it has one.
    fn diagnostic(&self) -> Option<T>
        requires
            self.can_signal(),
    ;
}

/// A signal of the analyser that makes its diagnostic with a factory.
pub struct DiagnosticSignal<D, T> {
    diagnostic: D,
    _diag: PhantomData<T>,
}

impl<D: Fn() -> T, T> DiagnosticSignal<D, T> {
    /// The factory of the diagnostic.
    pub closed spec fn factory(&self) -> D {
        self.diagnostic
    }

    /// A signal whose diagnostic `factory` makes.
    pub fn new(factory: D) -> (r: Self)
        ensures
            r.factory() == factory,
    {
        Self { diagnostic: factory, _diag: PhantomData }
    }
}

impl<D: Fn() -> T, T> AnalyzerSignal<T> for DiagnosticSignal<D, T> {
    /// The factory can be called.
    open spec fn can_signal(&self) -> bool {
        call_requires(self.factory(), ())
    }

    /// The diagnostic, as the factory makes it.
    fn diagnostic(&self) -> (r: Option<T>)
        ensures
            r matches Some(d) && call_ensures(self.factory(), (), d),
    {
        Some((self.diagnostic)())
    }
}

/// Something the rules of the analyser are recorded into.
pub trait RegistryVisitor {
    /// The visitor can record rules.
    spec fn ready(&self) -> bool;

    /// Records the rule `rule` of the group `group`.
    fn record_rule(&mut self, group: &'static str, rule: &'static str)
        requires
            old(self).ready(),
        ensures
            final(self).ready(),
    ;
}

impl RegistryVisitor for MetadataRegistry {
    open spec fn ready(&self) -> bool {
        self.wf()
    }

    /// Adds the rule to the known rules.
    fn record_rule(&mut self, group: &'static str, rule: &'static str)
        ensures
            final(self).rules() == old(self).rules().insert((group@, rule@)),
    {
        self.insert_rule(group, rule);
    }
}

} // verus!

//! The rule engine: an ordered list of rules and the action that the first
//! applicable one prescribes for a URL.

use crate::model::{rule_views, Action, ConditionView, Rule, RuleCondition, RuleView};
use vstd::prelude::*;
use wildmatch::WildMatch;

verus! {

/// Whether `pattern` matches the whole of `text`, where `*` in the pattern
/// stands for any run of characters, the empty one included, `?` for exactly
/// one character, and every other character for itself.
pub open spec fn wildcard_matches(pattern: Seq<char>, text: Seq<char>) -> bool
    decreases pattern.len(), text.len(),
{
    if pattern.len() == 0 {
        text.len() == 0
    } else if pattern[0] == '*' {
        wildcard_matches(pattern.skip(1), text) || (text.len() > 0 && wildcard_matches(
            pattern,
            text.skip(1),
        ))
    } else {
        text.len() > 0 && (pattern[0] == '?' || pattern[0] == text[0]) && wildcard_matches(
            pattern.skip(1),
            text.skip(1),
        )
    }
}

/// What the URL parser makes of a text: `None` where it is no URL, otherwise
/// the URL's domain, which is `None` where the host is missing or is an IP
/// address.
pub uninterp spec fn url_domain(url: Seq<char>) -> Option<Option<Seq<char>>>;

/// The view of a parser result.
pub open spec fn parsed_view(parsed: Option<Option<String>>) -> Option<Option<Seq<char>>> {
    match parsed {
        None => None,
        Some(None) => Some(None),
        Some(Some(domain)) => Some(Some(domain@)),
    }
}

/// `Url::parse`, and `Url::domain` on the URL it gives. The outcome is a
/// function of the text alone; this contract does no more than name it.
#[verifier::external_body]
pub(crate) fn parse_domain(url: &str) -> (parsed: Option<Option<String>>)
    ensures
        parsed_view(parsed) == url_domain(url@),
{
    match url::Url::parse(url) {
        Ok(u) => match u.domain() {
            Some(d) => Some(Some(d.to_owned())),
            None => Some(None),
        },
        Err(_) => None,
    }
}

/// `WildMatch::new` on the pattern and `matches` on the text: case-sensitive
/// matching of the whole text, with `*` and `?` as wildcards.
#[verifier::external_body]
pub(crate) fn pattern_matches(pattern: &str, text: &str) -> (matched: bool)
    ensures
        matched == wildcard_matches(pattern@, text@),
{
    WildMatch::new(pattern).matches(text)
}

/// Whether a rule applies to a request with this domain and this URL.
pub open spec fn rule_applies(rule: RuleView, domain: Seq<char>, url: Seq<char>) -> bool {
    match rule.condition {
        ConditionView::Domain(d) => d == domain,
        ConditionView::UrlPattern(p) => wildcard_matches(p, url),
    }
}

/// The action of the first applicable rule at index `from` or later, and
/// `Allow` where there is none.
pub open spec fn selected_from(rules: Seq<RuleView>, from: int, domain: Seq<char>, url: Seq<char>) -> Action
    decreases rules.len() - from,
{
    if from < 0 || from >= rules.len() {
        Action::Allow
    } else if rule_applies(rules[from], domain, url) {
        rules[from].action
    } else {
        selected_from(rules, from + 1, domain, url)
    }
}

/// The domain that rules are compared with: the URL's own, or the empty text
/// where it has none.
pub open spec fn effective_domain(domain: Option<Seq<char>>) -> Seq<char> {
    match domain {
        Some(d) => d,
        None => Seq::empty(),
    }
}

/// The decision for a URL, given what the parser made of it: `Allow` for what
/// is no URL, otherwise the action of the first applicable rule.
pub open spec fn decision(rules: Seq<RuleView>, parsed: Option<Option<Seq<char>>>, url: Seq<char>) -> Action {
    match parsed {
        None => Action::Allow,
        Some(domain) => selected_from(rules, 0, effective_domain(domain), url),
    }
}

/// An ordered list of rules.
pub struct RuleEngine {
    rules: Vec<Rule>,
}

impl View for RuleEngine {
    type V = Seq<RuleView>;

    closed spec fn view(&self) -> Seq<RuleView> {
        rule_views(self.rules@)
    }
}

impl RuleEngine {
    /// An engine that evaluates `rules` in the order given.
    pub fn new(rules: Vec<Rule>) -> (engine: RuleEngine)
        ensures
            engine@ == rule_views(rules@),
    {
        RuleEngine { rules }
    }

    /// The number of rules.
    pub fn len(&self) -> (n: usize)
        ensures
            n == self@.len(),
    {
        self.rules.len()
    }

    /// Whether the rule at `index` applies.
    fn applies(&self, index: usize, domain: &String, url: &str) -> (hit: bool)
        requires
            index < self@.len(),
        ensures
            hit == rule_applies(self@[index as int], domain@, url@),
    {
        match &self.rules[index].condition {
            RuleCondition::Domain(d) => *d == *domain,
            RuleCondition::UrlPattern(p) => pattern_matches(p.as_str(), url),
        }
    }

    /// The decision for `url`, given what the parser made of it.
    #[verifier::loop_isolation(false)]
    pub fn decide(&self, parsed: Option<Option<String>>, url: &str) -> (action: Action)
        ensures
            action == decision(self@, parsed_view(parsed), url@),
    {
        let ghost wanted = decision(self@, parsed_view(parsed), url@);
        let domain = match parsed {
            None => {
                return Action::Allow;
            },
            Some(None) => String::new(),
            Some(Some(d)) => d,
        };
        let n = self.rules.len();
        let mut i: usize = 0;
        while i < n
            invariant
                n == self@.len(),
                i <= n,
                wanted == selected_from(self@, i as int, domain@, url@),
            decreases n - i,
        {
            if self.applies(i, &domain, url) {
                assert(self@[i as int].action == self.rules@[i as int].action);
                return self.rules[i].action;
            }
            i += 1;
        }
        Action::Allow
    }

    /// The action for a request URL: `Allow` where the text is no URL,
    /// otherwise the action of the first rule that applies, and `Allow` where
    /// none does.
    pub fn match_action(&self, uri: &str) -> (action: Action)
        ensures
            action == decision(self@, url_domain(uri@), uri@),
    {
        let parsed = parse_domain(uri);
        self.decide(parsed, uri)
    }
}

/// The first applicable rule decides: where the rule at `index` applies and
/// none before it does, its action is selected, whatever follows it.
pub proof fn lemma_first_match_wins(rules: Seq<RuleView>, index: int, domain: Seq<char>, url: Seq<char>)
    requires
        0 <= index < rules.len(),
        rule_applies(rules[index], domain, url),
        forall|j: int| 0 <= j < index ==> !rule_applies(#[trigger] rules[j], domain, url),
    ensures
        selected_from(rules, 0, domain, url) == rules[index].action,
{
    lemma_skip_inapplicable(rules, 0, index, domain, url);
}

/// Where no rule applies, the request is allowed.
pub proof fn lemma_no_match_allows(rules: Seq<RuleView>, domain: Seq<char>, url: Seq<char>)
    requires
        forall|j: int| 0 <= j < rules.len() ==> !rule_applies(#[trigger] rules[j], domain, url),
    ensures
        selected_from(rules, 0, domain, url) == Action::Allow,
{
    lemma_skip_inapplicable(rules, 0, rules.len() as int, domain, url);
}

/// Rules that do not apply are passed over.
proof fn lemma_skip_inapplicable(rules: Seq<RuleView>, from: int, to: int, domain: Seq<char>, url: Seq<char>)
    requires
        0 <= from <= to <= rules.len(),
        forall|j: int| from <= j < to ==> !rule_applies(#[trigger] rules[j], domain, url),
    ensures
        selected_from(rules, from, domain, url) == selected_from(rules, to, domain, url),
    decreases to - from,
{
    if from < to {
        lemma_skip_inapplicable(rules, from + 1, to, domain, url);
    }
}

} // verus!

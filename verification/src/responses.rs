//! The simulated-inference response table: an ordered list of (marker,
//! response) rules with a default fallback, matched case-sensitively against
//! the prompt.

use vstd::prelude::*;
use crate::matching::contains_seq;
use crate::matching::contains_marker;

verus! {

pub const SOAP_MARKER: &'static str = "SOAP";

pub const PIRP_MARKER: &'static str = "PIRP";

pub const SOAP_NOTE: &'static str = "Subjective: Patient reports increased anxiety over the past two weeks with episodes of shortness of breath, racing heart, and difficulty concentrating. Patient is sleeping 5-6 hours per night, down from usual 7-8 hours. Anxiety is related to upcoming job interview and financial concerns. No changes in medication or physical health reported.\n\nObjective: Patient appears mildly agitated but well-groomed. Speech is rapid but coherent. Patient demonstrates good insight into anxiety triggers. Breathing is slightly elevated. No signs of acute distress.\n\nAssessment: Patient is experiencing moderate generalized anxiety related to specific upcoming stressors. Good candidate for cognitive-behavioral techniques and breathing exercises. No indication of panic disorder or more severe anxiety condition at this time.\n\nPlan: Will continue weekly sessions. Introduced breathing techniques and cognitive reframing during session. Patient will practice mindfulness techniques daily. Will introduce additional coping strategies at next appointment.";

pub const PIRP_NOTE: &'static str = "Problem: Patient presents with increased anxiety manifesting as shortness of breath, racing heart, and difficulty concentrating. Sleep has decreased to 5-6 hours nightly. Specific stressors include upcoming job interview and financial concerns.\n\nIntervention: Discussed cognitive-behavioral approach to anxiety management. Introduced diaphragmatic breathing techniques and demonstrated grounding exercises during session. Explored cognitive distortions related to job interview expectations.\n\nResponse: Patient engaged actively with breathing exercises, showing observable reduction in physical tension by end of demonstration. Verbalized understanding of cognitive reframing concepts and identified two specific thought patterns to work on.\n\nPlan: Weekly sessions to continue. Patient will practice mindfulness techniques daily and log anxiety episodes with associated thoughts. Next session will focus on expanding coping skill repertoire and reviewing results of homework.";

pub const DEFAULT_NOTE: &'static str = "The patient reported symptoms of anxiety including shortness of breath and racing heart. They identified stressors related to job searching and finances. We discussed several coping strategies including breathing techniques and cognitive reframing. The patient will practice these skills before our next appointment.";

/// One rule of the response table: if the marker occurs in the prompt, the
/// canned response is returned.
pub struct ResponseRule {
    pub marker: String,
    pub response: String,
}

pub struct RuleView {
    pub marker: Seq<char>,
    pub response: Seq<char>,
}

impl View for ResponseRule {
    type V = RuleView;

    open spec fn view(&self) -> RuleView {
        RuleView { marker: self.marker@, response: self.response@ }
    }
}

/// An ordered list of rules with a default fallback response.
pub struct ResponseTable {
    pub rules: Vec<ResponseRule>,
    pub default_response: String,
}

pub struct TableView {
    pub rules: Seq<RuleView>,
    pub default_response: Seq<char>,
}

impl View for ResponseTable {
    type V = TableView;

    open spec fn view(&self) -> TableView {
        TableView {
            rules: self.rules@.map_values(|r: ResponseRule| r@),
            default_response: self.default_response@,
        }
    }
}

/// The response a table gives: that of the first rule whose marker occurs in
/// the prompt, or the default when no marker does.
pub open spec fn table_response(rules: Seq<RuleView>, dflt: Seq<char>, prompt: Seq<char>) -> Seq<char>
    decreases rules.len(),
{
    if rules.len() == 0 {
        dflt
    } else if contains_seq(prompt, rules[0].marker) {
        rules[0].response
    } else {
        table_response(rules.skip(1), dflt, prompt)
    }
}

/// The standard rules: the SOAP note first, then the PIRP note.
pub open spec fn standard_rules() -> Seq<RuleView> {
    seq![
        RuleView { marker: SOAP_MARKER@, response: SOAP_NOTE@ },
        RuleView { marker: PIRP_MARKER@, response: PIRP_NOTE@ },
    ]
}

/// What simulated inference returns for a prompt: the standard table's
/// response.
pub open spec fn sim_response(prompt: Seq<char>) -> Seq<char> {
    table_response(standard_rules(), DEFAULT_NOTE@, prompt)
}

impl ResponseTable {
    /// The standard table: SOAP before PIRP, with a generic narrative
    /// fallback.
    pub fn standard() -> (t: ResponseTable)
        ensures
            t@.rules == standard_rules(),
            t@.default_response == DEFAULT_NOTE@,
    {
        let mut rules: Vec<ResponseRule> = Vec::new();
        rules.push(ResponseRule { marker: SOAP_MARKER.to_owned(), response: SOAP_NOTE.to_owned() });
        rules.push(ResponseRule { marker: PIRP_MARKER.to_owned(), response: PIRP_NOTE.to_owned() });
        let t = ResponseTable { rules, default_response: DEFAULT_NOTE.to_owned() };
        proof {
            assert(t@.rules =~= standard_rules());
        }
        t
    }

    /// Walk the rules in order; the first whose marker occurs in the prompt
    /// decides the response.
    pub fn respond(&self, prompt: &str) -> (r: String)
        ensures
            r@ == table_response(self@.rules, self@.default_response, prompt@),
    {
        let n = self.rules.len();
        let mut idx: usize = 0;
        proof {
            assert(self@.rules.skip(0) =~= self@.rules);
        }
        while idx < n
            invariant
                idx <= n,
                n == self.rules.len(),
                table_response(self@.rules, self@.default_response, prompt@)
                    == table_response(self@.rules.skip(idx as int), self@.default_response, prompt@),
            decreases n - idx,
        {
            let rule = &self.rules[idx];
            if contains_marker(prompt, rule.marker.as_str()) {
                proof {
                    assert(self@.rules.skip(idx as int)[0] == self@.rules[idx as int]);
                }
                return rule.response.clone();
            }
            proof {
                assert(self@.rules.skip(idx as int)[0] == self@.rules[idx as int]);
                assert(self@.rules.skip(idx as int).skip(1) =~= self@.rules.skip(idx as int + 1));
            }
            idx += 1;
        }
        proof {
            assert(self@.rules.skip(idx as int) =~= Seq::<RuleView>::empty());
        }
        self.default_response.clone()
    }
}

/// The standard table's case law: a prompt containing the SOAP marker gets
/// the SOAP note; one containing the PIRP marker but not the SOAP marker gets
/// the PIRP note; any other prompt gets the default note. The response is a
/// function of the prompt alone, so repeated calls on one prompt agree.
pub proof fn lemma_sim_response_cases(prompt: Seq<char>)
    ensures
        contains_seq(prompt, SOAP_MARKER@) ==> sim_response(prompt) == SOAP_NOTE@,
        !contains_seq(prompt, SOAP_MARKER@) && contains_seq(prompt, PIRP_MARKER@)
            ==> sim_response(prompt) == PIRP_NOTE@,
        !contains_seq(prompt, SOAP_MARKER@) && !contains_seq(prompt, PIRP_MARKER@)
            ==> sim_response(prompt) == DEFAULT_NOTE@,
{
    reveal_with_fuel(table_response, 3);
    let rules = standard_rules();
    assert(rules.skip(1)[0] == rules[1]);
    assert(rules.skip(1).skip(1) =~= Seq::<RuleView>::empty());
}

/// Simulated inference: the canned response that the standard table picks for
/// the prompt.
pub fn simulate_llm_response(prompt: &str) -> (r: String)
    ensures
        r@ == sim_response(prompt@),
{
    let t = ResponseTable::standard();
    t.respond(prompt)
}

} // verus!

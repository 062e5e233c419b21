//! Affinity model: label selectors, weighted pod-affinity terms and the
//! role-level defaults, together with the migration of the deprecated
//! rolegroup `selector` field into affinity terms.

use crate::KafkaRole;
use vstd::prelude::*;

verus! {

/// One label key/value pair.
#[derive(Debug, PartialEq)]
pub struct LabelEntry {
    pub key: String,
    pub value: String,
}

/// Spec-level form of a label pair.
#[verifier::ext_equal]
pub struct LabelEntryView {
    pub key: Seq<char>,
    pub value: Seq<char>,
}

impl View for LabelEntry {
    type V = LabelEntryView;

    open spec fn view(&self) -> LabelEntryView {
        LabelEntryView { key: self.key@, value: self.value@ }
    }
}

impl DeepView for LabelEntry {
    type V = LabelEntryView;

    open spec fn deep_view(&self) -> LabelEntryView {
        self.view()
    }
}

impl Clone for LabelEntry {
    fn clone(&self) -> (r: Self)
        ensures
            r@ == self@,
    {
        LabelEntry { key: self.key.clone(), value: self.value.clone() }
    }
}

/// One requirement of a label selector.
#[derive(Debug, PartialEq)]
pub struct LabelSelectorRequirement {
    pub key: String,
    pub operator: String,
    pub values: Vec<String>,
}

/// Spec-level form of a selector requirement.
#[verifier::ext_equal]
pub struct LabelSelectorRequirementView {
    pub key: Seq<char>,
    pub operator: Seq<char>,
    pub values: Seq<Seq<char>>,
}

impl View for LabelSelectorRequirement {
    type V = LabelSelectorRequirementView;

    open spec fn view(&self) -> LabelSelectorRequirementView {
        LabelSelectorRequirementView {
            key: self.key@,
            operator: self.operator@,
            values: self.values.deep_view(),
        }
    }
}

impl DeepView for LabelSelectorRequirement {
    type V = LabelSelectorRequirementView;

    open spec fn deep_view(&self) -> LabelSelectorRequirementView {
        self.view()
    }
}

impl Clone for LabelSelectorRequirement {
    fn clone(&self) -> (r: Self)
        ensures
            r@ == self@,
    {
        let r = LabelSelectorRequirement {
            key: self.key.clone(),
            operator: self.operator.clone(),
            values: self.values.clone(),
        };
        proof {
            assert(r.values.deep_view() =~= self.values.deep_view());
        }
        r
    }
}

/// The deprecated rolegroup pod selector: matched labels and expressions.
#[derive(Debug, PartialEq)]
pub struct LabelSelector {
    pub match_labels: Vec<LabelEntry>,
    pub match_expressions: Vec<LabelSelectorRequirement>,
}

/// Spec-level form of a label selector.
#[verifier::ext_equal]
pub struct LabelSelectorView {
    pub match_labels: Seq<LabelEntryView>,
    pub match_expressions: Seq<LabelSelectorRequirementView>,
}

impl View for LabelSelector {
    type V = LabelSelectorView;

    open spec fn view(&self) -> LabelSelectorView {
        LabelSelectorView {
            match_labels: self.match_labels.deep_view(),
            match_expressions: self.match_expressions.deep_view(),
        }
    }
}

impl DeepView for LabelSelector {
    type V = LabelSelectorView;

    open spec fn deep_view(&self) -> LabelSelectorView {
        self.view()
    }
}

impl Clone for LabelSelector {
    fn clone(&self) -> (r: Self)
        ensures
            r@ == self@,
    {
        let r = LabelSelector {
            match_labels: self.match_labels.clone(),
            match_expressions: self.match_expressions.clone(),
        };
        proof {
            assert(r.match_labels.deep_view() =~= self.match_labels.deep_view());
            assert(r.match_expressions.deep_view() =~= self.match_expressions.deep_view());
        }
        r
    }
}

/// A weighted pod-(anti-)affinity preference: pods matching the labels,
/// spread over the topology key.
#[derive(Debug, PartialEq)]
pub struct WeightedPodAffinityTerm {
    pub weight: u16,
    pub match_labels: Vec<LabelEntry>,
    pub topology_key: String,
}

/// Spec-level form of a weighted pod-affinity term.
#[verifier::ext_equal]
pub struct WeightedPodAffinityTermView {
    pub weight: u16,
    pub match_labels: Seq<LabelEntryView>,
    pub topology_key: Seq<char>,
}

impl View for WeightedPodAffinityTerm {
    type V = WeightedPodAffinityTermView;

    open spec fn view(&self) -> WeightedPodAffinityTermView {
        WeightedPodAffinityTermView {
            weight: self.weight,
            match_labels: self.match_labels.deep_view(),
            topology_key: self.topology_key@,
        }
    }
}

impl DeepView for WeightedPodAffinityTerm {
    type V = WeightedPodAffinityTermView;

    open spec fn deep_view(&self) -> WeightedPodAffinityTermView {
        self.view()
    }
}

impl Clone for WeightedPodAffinityTerm {
    fn clone(&self) -> (r: Self)
        ensures
            r@ == self@,
    {
        let r = WeightedPodAffinityTerm {
            weight: self.weight,
            match_labels: self.match_labels.clone(),
            topology_key: self.topology_key.clone(),
        };
        proof {
            assert(r.match_labels.deep_view() =~= self.match_labels.deep_view());
        }
        r
    }
}

/// The affinity section of a configuration fragment. Every field is
/// independently set or unset; an unset field defers to the next lower
/// precedence layer.
#[derive(Debug, PartialEq)]
pub struct StackableAffinity {
    pub pod_affinity: Option<Vec<WeightedPodAffinityTerm>>,
    pub pod_anti_affinity: Option<Vec<WeightedPodAffinityTerm>>,
    pub node_affinity: Option<Vec<LabelSelectorRequirement>>,
    pub node_selector: Option<Vec<LabelEntry>>,
}

/// Spec-level form of the affinity section.
#[verifier::ext_equal]
pub struct StackableAffinityView {
    pub pod_affinity: Option<Seq<WeightedPodAffinityTermView>>,
    pub pod_anti_affinity: Option<Seq<WeightedPodAffinityTermView>>,
    pub node_affinity: Option<Seq<LabelSelectorRequirementView>>,
    pub node_selector: Option<Seq<LabelEntryView>>,
}

impl View for StackableAffinity {
    type V = StackableAffinityView;

    open spec fn view(&self) -> StackableAffinityView {
        StackableAffinityView {
            pod_affinity: self.pod_affinity.deep_view(),
            pod_anti_affinity: self.pod_anti_affinity.deep_view(),
            node_affinity: self.node_affinity.deep_view(),
            node_selector: self.node_selector.deep_view(),
        }
    }
}

impl DeepView for StackableAffinity {
    type V = StackableAffinityView;

    open spec fn deep_view(&self) -> StackableAffinityView {
        self.view()
    }
}

impl Clone for StackableAffinity {
    fn clone(&self) -> (r: Self)
        ensures
            r@ == self@,
    {
        let pod_affinity = match &self.pod_affinity {
            Some(v) => Some(v.clone()),
            None => None,
        };
        let pod_anti_affinity = match &self.pod_anti_affinity {
            Some(v) => Some(v.clone()),
            None => None,
        };
        let node_affinity = match &self.node_affinity {
            Some(v) => Some(v.clone()),
            None => None,
        };
        let node_selector = match &self.node_selector {
            Some(v) => Some(v.clone()),
            None => None,
        };
        proof {
            assert(pod_affinity.deep_view() =~~= self.pod_affinity.deep_view());
            assert(pod_anti_affinity.deep_view() =~~= self.pod_anti_affinity.deep_view());
            assert(node_affinity.deep_view() =~~= self.node_affinity.deep_view());
            assert(node_selector.deep_view() =~~= self.node_selector.deep_view());
        }
        StackableAffinity { pod_affinity, pod_anti_affinity, node_affinity, node_selector }
    }
}

/// The affinity a role gets when nothing overrides it: a weighted
/// preference to spread the role's pods over distinct nodes.
pub open spec fn spec_get_affinity(cluster_name: Seq<char>, role_name: Seq<char>) -> StackableAffinityView {
    StackableAffinityView {
        pod_affinity: None,
        pod_anti_affinity: Some(
            seq![
                WeightedPodAffinityTermView {
                    weight: 70,
                    match_labels: seq![
                        LabelEntryView { key: "app.kubernetes.io/name"@, value: "kafka"@ },
                        LabelEntryView { key: "app.kubernetes.io/instance"@, value: cluster_name },
                        LabelEntryView { key: "app.kubernetes.io/component"@, value: role_name },
                    ],
                    topology_key: "kubernetes.io/hostname"@,
                },
            ],
        ),
        node_affinity: None,
        node_selector: None,
    }
}

/// The default affinity for a role of a cluster: prefer spreading the
/// role's pods over distinct nodes.
pub fn get_affinity(cluster_name: &str, role: &KafkaRole) -> (r: StackableAffinity)
    ensures
        r@ == spec_get_affinity(cluster_name@, role.spec_name()),
{
    let mut match_labels: Vec<LabelEntry> = Vec::new();
    match_labels.push(
        LabelEntry {
            key: String::from_str("app.kubernetes.io/name"),
            value: String::from_str("kafka"),
        },
    );
    match_labels.push(
        LabelEntry {
            key: String::from_str("app.kubernetes.io/instance"),
            value: String::from_str(cluster_name),
        },
    );
    match_labels.push(
        LabelEntry {
            key: String::from_str("app.kubernetes.io/component"),
            value: String::from_str(role.name()),
        },
    );
    let term = WeightedPodAffinityTerm {
        weight: 70,
        match_labels,
        topology_key: String::from_str("kubernetes.io/hostname"),
    };
    let mut preferred: Vec<WeightedPodAffinityTerm> = Vec::new();
    preferred.push(term);
    let r = StackableAffinity {
        pod_affinity: None,
        pod_anti_affinity: Some(preferred),
        node_affinity: None,
        node_selector: None,
    };
    proof {
        assert(r@ =~~= spec_get_affinity(cluster_name@, role.spec_name()));
    }
    r
}

/// The affinity after migrating a deprecated rolegroup selector into it:
/// the selector's labels and expressions are appended, and nothing already
/// present is removed.
pub open spec fn spec_add_legacy_selector(
    a: StackableAffinityView,
    s: LabelSelectorView,
) -> StackableAffinityView {
    StackableAffinityView {
        pod_affinity: a.pod_affinity,
        pod_anti_affinity: a.pod_anti_affinity,
        node_affinity: match a.node_affinity {
            Some(reqs) => Some(reqs + s.match_expressions),
            None => if s.match_expressions.len() == 0 {
                None
            } else {
                Some(s.match_expressions)
            },
        },
        node_selector: match a.node_selector {
            Some(labels) => Some(labels + s.match_labels),
            None => if s.match_labels.len() == 0 {
                None
            } else {
                Some(s.match_labels)
            },
        },
    }
}

impl StackableAffinity {
    /// Migrates the deprecated rolegroup `selector` field: its labels and
    /// expressions become additional node-scoped affinity terms. Additive:
    /// no term already present is removed.
    pub fn add_legacy_selector(&mut self, selector: &LabelSelector)
        ensures
            final(self)@ == spec_add_legacy_selector(old(self)@, selector@),
    {
        let node_affinity: Option<Vec<LabelSelectorRequirement>> = match &self.node_affinity {
            Some(reqs) => {
                let mut base = reqs.clone();
                let mut appended = selector.match_expressions.clone();
                proof {
                    assert(base.deep_view() =~= reqs.deep_view());
                    assert(appended.deep_view() =~= selector.match_expressions.deep_view());
                }
                base.append(&mut appended);
                Some(base)
            },
            None => {
                if selector.match_expressions.len() > 0 {
                    let copied = selector.match_expressions.clone();
                    proof {
                        assert(copied.deep_view() =~= selector.match_expressions.deep_view());
                    }
                    Some(copied)
                } else {
                    None
                }
            },
        };
        let node_selector: Option<Vec<LabelEntry>> = match &self.node_selector {
            Some(labels) => {
                let mut base = labels.clone();
                let mut appended = selector.match_labels.clone();
                proof {
                    assert(base.deep_view() =~= labels.deep_view());
                    assert(appended.deep_view() =~= selector.match_labels.deep_view());
                }
                base.append(&mut appended);
                Some(base)
            },
            None => {
                if selector.match_labels.len() > 0 {
                    let copied = selector.match_labels.clone();
                    proof {
                        assert(copied.deep_view() =~= selector.match_labels.deep_view());
                    }
                    Some(copied)
                } else {
                    None
                }
            },
        };
        self.node_affinity = node_affinity;
        self.node_selector = node_selector;
        proof {
            assert(self@ =~~= spec_add_legacy_selector(old(self)@, selector@));
        }
    }
}

} // verus!

//! DNS configuration of a machine.

use crate::json::{
    json_member, json_seq_view, jv_opt_bool, jv_opt_str, jv_opt_str_arr, jv_req_str,
    jv_str_seq, opt_member, str_seq_jv, Json, JsonV,
};
use vstd::prelude::*;

verus! {

broadcast use crate::json::lemma_lookup_push, vstd::string::group_string_axioms, vstd::seq::group_seq_axioms, vstd::std_specs::vec::group_vec_axioms;

/// A rule forwarding DNS queries for a source zone to a destination server.
#[derive(Clone, Debug)]
pub struct DnsForwardRule {
    pub source: String,
    pub destination: String,
    pub protocol: Option<String>,
}

#[verifier::ext_equal]
pub struct DnsForwardRuleV {
    pub source: Seq<char>,
    pub destination: Seq<char>,
    pub protocol: Option<Seq<char>>,
}

impl DeepView for DnsForwardRule {
    type V = DnsForwardRuleV;

    open spec fn deep_view(&self) -> DnsForwardRuleV {
        DnsForwardRuleV {
            source: self.source@,
            destination: self.destination@,
            protocol: self.protocol.deep_view(),
        }
    }
}

pub open spec fn dns_forward_rule_jv(r: DnsForwardRuleV) -> JsonV {
    let m = Seq::<(Seq<char>, JsonV)>::empty();
    let m = m.push(("source"@, JsonV::Str(r.source)));
    let m = m.push(("destination"@, JsonV::Str(r.destination)));
    let m = opt_member(m, "protocol"@, match r.protocol {
        None => None,
        Some(s) => Some(JsonV::Str(s)),
    });
    JsonV::Obj(m)
}

pub open spec fn dns_forward_rule_of_jv(j: JsonV) -> Option<DnsForwardRuleV> {
    if !(j is Obj) {
        None
    } else if jv_req_str(j, "source"@) is None || jv_req_str(j, "destination"@) is None
        || jv_opt_str(j, "protocol"@) is None {
        None
    } else {
        Some(DnsForwardRuleV {
            source: jv_req_str(j, "source"@)->0,
            destination: jv_req_str(j, "destination"@)->0,
            protocol: jv_opt_str(j, "protocol"@)->0,
        })
    }
}

impl DnsForwardRule {
    pub fn to_json(&self) -> (j: Json)
        ensures
            j.deep_view() == dns_forward_rule_jv(self.deep_view()),
    {
        let mut m: Vec<(String, Json)> = Vec::new();
        m.push(("source".to_owned(), Json::Str(self.source.clone())));
        m.push(("destination".to_owned(), Json::Str(self.destination.clone())));
        if let Some(s) = &self.protocol {
            m.push(("protocol".to_owned(), Json::Str(s.clone())));
        }
        let j = Json::Obj(m);
        proof {
            let ghost mv = m@;
            let ghost sv = dns_forward_rule_jv(self.deep_view())->Obj_0;
            assert(crate::json::json_pairs_view(mv).len() == sv.len());
            assert(crate::json::json_pairs_view(mv) =~= sv);
        }
        j
    }

    pub fn from_json(j: &Json) -> (r: Option<Self>)
        ensures
            r.deep_view() == dns_forward_rule_of_jv(j.deep_view()),
    {
        match j {
            Json::Obj(_) => {},
            _ => { return None; },
        }
        let source = match j.req_str("source") {
            Some(v) => v,
            None => { return None; },
        };
        let destination = match j.req_str("destination") {
            Some(v) => v,
            None => { return None; },
        };
        let protocol = match j.opt_str("protocol") {
            Some(v) => v,
            None => { return None; },
        };
        Some(DnsForwardRule { source, destination, protocol })
    }
}

/// Encoding a forward rule and decoding it yields the original value.
pub proof fn lemma_dns_forward_rule_round_trip(r: DnsForwardRuleV)
    ensures
        dns_forward_rule_of_jv(dns_forward_rule_jv(r)) == Some(r),
{
    reveal_strlit("source");
    reveal_strlit("destination");
    reveal_strlit("protocol");
    assert("source"@.len() == 6);
    assert("destination"@.len() == 11);
    assert("protocol"@.len() == 8);
    let e = dns_forward_rule_jv(r);
    assert(jv_req_str(e, "source"@) == Some(r.source));
    assert(jv_req_str(e, "destination"@) == Some(r.destination));
    assert(jv_opt_str(e, "protocol"@) == Some(r.protocol));
    assert(dns_forward_rule_of_jv(e)->0 =~= r);
    assert(dns_forward_rule_of_jv(e) == Some(r));
}

pub open spec fn dns_rule_seq_jv(s: Seq<DnsForwardRuleV>) -> Seq<JsonV> {
    Seq::new(s.len(), |i: int| dns_forward_rule_jv(s[i]))
}

pub open spec fn dns_rule_seq_of(items: Seq<JsonV>) -> Option<Seq<DnsForwardRuleV>> {
    if forall|k: int| 0 <= k < items.len() ==> dns_forward_rule_of_jv(#[trigger] items[k]) is Some {
        Some(Seq::new(items.len(), |k: int| dns_forward_rule_of_jv(items[k])->0))
    } else {
        None
    }
}

pub open spec fn jv_opt_dns_rules(j: JsonV, key: Seq<char>) -> Option<
    Option<Seq<DnsForwardRuleV>>,
> {
    match json_member(j, key) {
        None => Some(None),
        Some(JsonV::Null) => Some(None),
        Some(JsonV::Arr(items)) => match dns_rule_seq_of(items) {
            None => None,
            Some(rules) => Some(Some(rules)),
        },
        Some(_) => None,
    }
}

/// Builds the array for a list of forward rules.
pub fn dns_rules_json(list: &Vec<DnsForwardRule>) -> (j: Json)
    ensures
        j.deep_view() == JsonV::Arr(dns_rule_seq_jv(list.deep_view())),
{
    let mut out: Vec<Json> = Vec::new();
    let n = list.len();
    for i in 0..n
        invariant
            n == list.len(),
            out@.len() == i,
            forall|p: int| 0 <= p < i
                ==> (#[trigger] out@[p]).deep_view() == dns_forward_rule_jv(list@[p].deep_view()),
    {
        out.push(list[i].to_json());
    }
    let j = Json::Arr(out);
    proof {
        let ghost ov = out@;
        assert(json_seq_view(ov).len() == dns_rule_seq_jv(list.deep_view()).len());
        assert(json_seq_view(ov) =~= dns_rule_seq_jv(list.deep_view()));
    }
    j
}

/// Reads an optional member holding an array of forward rules.
pub fn opt_dns_rules_field(j: &Json, key: &str) -> (r: Option<Option<Vec<DnsForwardRule>>>)
    ensures
        r.deep_view() == jv_opt_dns_rules(j.deep_view(), key@),
{
    let k = key.to_owned();
    match j.get(&k) {
        None => Some(None),
        Some(Json::Null) => Some(None),
        Some(v) => match v {
            Json::Arr(items) => {
                let ghost iv = json_seq_view(items@);
                let mut out: Vec<DnsForwardRule> = Vec::new();
                let n = items.len();
                for i in 0..n
                    invariant
                        n == items.len(),
                        iv == json_seq_view(items@),
                        json_member(j.deep_view(), key@) == Some(JsonV::Arr(iv)),
                        iv.len() == n,
                        out@.len() == i,
                        forall|p: int| 0 <= p < i
                            ==> dns_forward_rule_of_jv(#[trigger] iv[p]) is Some,
                        forall|p: int| 0 <= p < i
                            ==> (#[trigger] out@[p]).deep_view() == dns_forward_rule_of_jv(
                                iv[p],
                            )->0,
                {
                    match DnsForwardRule::from_json(&items[i]) {
                        Some(x) => { out.push(x); },
                        None => {
                            proof {
                                assert(dns_forward_rule_of_jv(iv[i as int]) is None);
                            }
                            return None;
                        },
                    }
                }
                proof {
                    assert(out.deep_view() =~= dns_rule_seq_of(iv)->0);
                }
                Some(Some(out))
            },
            _ => None,
        },
    }
}

/// DNS behaviour of a machine.
#[derive(Clone, Debug)]
pub struct DnsConfig {
    pub dns_forward_rules: Option<Vec<DnsForwardRule>>,
    pub hostname: Option<String>,
    pub hostname_fqdn: Option<String>,
    pub nameservers: Option<Vec<String>>,
    pub options: Option<Vec<String>>,
    pub searches: Option<Vec<String>>,
    pub skip_registration: Option<bool>,
}

#[verifier::ext_equal]
pub struct DnsConfigV {
    pub dns_forward_rules: Option<Seq<DnsForwardRuleV>>,
    pub hostname: Option<Seq<char>>,
    pub hostname_fqdn: Option<Seq<char>>,
    pub nameservers: Option<Seq<Seq<char>>>,
    pub options: Option<Seq<Seq<char>>>,
    pub searches: Option<Seq<Seq<char>>>,
    pub skip_registration: Option<bool>,
}

impl DeepView for DnsConfig {
    type V = DnsConfigV;

    open spec fn deep_view(&self) -> DnsConfigV {
        DnsConfigV {
            dns_forward_rules: self.dns_forward_rules.deep_view(),
            hostname: self.hostname.deep_view(),
            hostname_fqdn: self.hostname_fqdn.deep_view(),
            nameservers: self.nameservers.deep_view(),
            options: self.options.deep_view(),
            searches: self.searches.deep_view(),
            skip_registration: self.skip_registration,
        }
    }
}

pub open spec fn dns_config_jv(c: DnsConfigV) -> JsonV {
    let m = Seq::<(Seq<char>, JsonV)>::empty();
    let m = opt_member(m, "dns_forward_rules"@, match c.dns_forward_rules {
        None => None,
        Some(rules) => Some(JsonV::Arr(dns_rule_seq_jv(rules))),
    });
    let m = opt_member(m, "hostname"@, match c.hostname {
        None => None,
        Some(s) => Some(JsonV::Str(s)),
    });
    let m = opt_member(m, "hostname_fqdn"@, match c.hostname_fqdn {
        None => None,
        Some(s) => Some(JsonV::Str(s)),
    });
    let m = opt_member(m, "nameservers"@, match c.nameservers {
        None => None,
        Some(a) => Some(JsonV::Arr(str_seq_jv(a))),
    });
    let m = opt_member(m, "options"@, match c.options {
        None => None,
        Some(a) => Some(JsonV::Arr(str_seq_jv(a))),
    });
    let m = opt_member(m, "searches"@, match c.searches {
        None => None,
        Some(a) => Some(JsonV::Arr(str_seq_jv(a))),
    });
    let m = opt_member(m, "skip_registration"@, match c.skip_registration {
        None => None,
        Some(b) => Some(JsonV::Bool(b)),
    });
    JsonV::Obj(m)
}

pub open spec fn dns_config_of_jv(j: JsonV) -> Option<DnsConfigV> {
    if !(j is Obj) {
        None
    } else if jv_opt_dns_rules(j, "dns_forward_rules"@) is None || jv_opt_str(j, "hostname"@) is None
        || jv_opt_str(j, "hostname_fqdn"@) is None || jv_opt_str_arr(j, "nameservers"@) is None
        || jv_opt_str_arr(j, "options"@) is None || jv_opt_str_arr(j, "searches"@) is None
        || jv_opt_bool(j, "skip_registration"@) is None {
        None
    } else {
        Some(DnsConfigV {
            dns_forward_rules: jv_opt_dns_rules(j, "dns_forward_rules"@)->0,
            hostname: jv_opt_str(j, "hostname"@)->0,
            hostname_fqdn: jv_opt_str(j, "hostname_fqdn"@)->0,
            nameservers: jv_opt_str_arr(j, "nameservers"@)->0,
            options: jv_opt_str_arr(j, "options"@)->0,
            searches: jv_opt_str_arr(j, "searches"@)->0,
            skip_registration: jv_opt_bool(j, "skip_registration"@)->0,
        })
    }
}

impl DnsConfig {
    pub fn to_json(&self) -> (j: Json)
        ensures
            j.deep_view() == dns_config_jv(self.deep_view()),
    {
        let mut m: Vec<(String, Json)> = Vec::new();
        if let Some(rules) = &self.dns_forward_rules {
            m.push(("dns_forward_rules".to_owned(), dns_rules_json(rules)));
        }
        if let Some(s) = &self.hostname {
            m.push(("hostname".to_owned(), Json::Str(s.clone())));
        }
        if let Some(s) = &self.hostname_fqdn {
            m.push(("hostname_fqdn".to_owned(), Json::Str(s.clone())));
        }
        if let Some(a) = &self.nameservers {
            m.push(("nameservers".to_owned(), Json::from_strings(a)));
        }
        if let Some(a) = &self.options {
            m.push(("options".to_owned(), Json::from_strings(a)));
        }
        if let Some(a) = &self.searches {
            m.push(("searches".to_owned(), Json::from_strings(a)));
        }
        if let Some(b) = &self.skip_registration {
            m.push(("skip_registration".to_owned(), Json::Bool(*b)));
        }
        let j = Json::Obj(m);
        proof {
            let ghost mv = m@;
            let ghost sv = dns_config_jv(self.deep_view())->Obj_0;
            assert(crate::json::json_pairs_view(mv).len() == sv.len());
            assert(crate::json::json_pairs_view(mv) =~= sv);
        }
        j
    }

    pub fn from_json(j: &Json) -> (r: Option<Self>)
        ensures
            r.deep_view() == dns_config_of_jv(j.deep_view()),
    {
        match j {
            Json::Obj(_) => {},
            _ => { return None; },
        }
        let dns_forward_rules = match opt_dns_rules_field(j, "dns_forward_rules") {
            Some(v) => v,
            None => { return None; },
        };
        let hostname = match j.opt_str("hostname") {
            Some(v) => v,
            None => { return None; },
        };
        let hostname_fqdn = match j.opt_str("hostname_fqdn") {
            Some(v) => v,
            None => { return None; },
        };
        let nameservers = match j.opt_str_arr("nameservers") {
            Some(v) => v,
            None => { return None; },
        };
        let options = match j.opt_str_arr("options") {
            Some(v) => v,
            None => { return None; },
        };
        let searches = match j.opt_str_arr("searches") {
            Some(v) => v,
            None => { return None; },
        };
        let skip_registration = match j.opt_bool("skip_registration") {
            Some(v) => v,
            None => { return None; },
        };
        Some(DnsConfig {
            dns_forward_rules,
            hostname,
            hostname_fqdn,
            nameservers,
            options,
            searches,
            skip_registration,
        })
    }
}

/// Encoding a DNS configuration and decoding it yields the original value.
pub proof fn lemma_dns_config_round_trip(c: DnsConfigV)
    ensures
        dns_config_of_jv(dns_config_jv(c)) == Some(c),
{
    reveal_strlit("dns_forward_rules");
    reveal_strlit("hostname");
    reveal_strlit("hostname_fqdn");
    reveal_strlit("nameservers");
    reveal_strlit("options");
    reveal_strlit("searches");
    reveal_strlit("skip_registration");
    assert("dns_forward_rules"@.len() == 17);
    assert("hostname"@.len() == 8);
    assert("hostname_fqdn"@.len() == 13);
    assert("nameservers"@.len() == 11);
    assert("options"@.len() == 7);
    assert("searches"@.len() == 8);
    assert("skip_registration"@.len() == 17);
    assert("dns_forward_rules"@[0] == 'd');
    assert("skip_registration"@[0] == 's');
    assert("hostname"@[0] == 'h');
    assert("searches"@[0] == 's');
    let e = dns_config_jv(c);
    assert(jv_opt_dns_rules(e, "dns_forward_rules"@) == Some(c.dns_forward_rules)) by {
        if c.dns_forward_rules is Some {
            let rules = c.dns_forward_rules->0;
            assert forall|k: int| 0 <= k < rules.len() implies dns_forward_rule_of_jv(
                #[trigger] dns_rule_seq_jv(rules)[k],
            ) is Some by {
                lemma_dns_forward_rule_round_trip(rules[k]);
            }
            assert(dns_rule_seq_of(dns_rule_seq_jv(rules)) is Some);
            assert forall|k: int| 0 <= k < rules.len() implies dns_rule_seq_of(
                dns_rule_seq_jv(rules),
            )->0[k] == rules[k] by {
                lemma_dns_forward_rule_round_trip(rules[k]);
            }
            assert(dns_rule_seq_of(dns_rule_seq_jv(rules))->0 =~= rules);
        }
    }
    assert(jv_opt_str(e, "hostname"@) == Some(c.hostname));
    assert(jv_opt_str(e, "hostname_fqdn"@) == Some(c.hostname_fqdn));
    assert(jv_opt_str_arr(e, "nameservers"@) == Some(c.nameservers)) by {
        if c.nameservers is Some {
            assert(jv_str_seq(str_seq_jv(c.nameservers->0))->0 =~= c.nameservers->0);
        }
    }
    assert(jv_opt_str_arr(e, "options"@) == Some(c.options)) by {
        if c.options is Some {
            assert(jv_str_seq(str_seq_jv(c.options->0))->0 =~= c.options->0);
        }
    }
    assert(jv_opt_str_arr(e, "searches"@) == Some(c.searches)) by {
        if c.searches is Some {
            assert(jv_str_seq(str_seq_jv(c.searches->0))->0 =~= c.searches->0);
        }
    }
    assert(jv_opt_bool(e, "skip_registration"@) == Some(c.skip_registration));
    assert(dns_config_of_jv(e)->0 =~= c);
    assert(dns_config_of_jv(e) == Some(c));
}

} // verus!

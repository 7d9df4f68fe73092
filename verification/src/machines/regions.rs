//! Regions a machine or volume can be placed in.

use crate::json::{json_member, Json, JsonV};
use vstd::prelude::*;

verus! {

broadcast use vstd::string::group_string_axioms, vstd::seq::group_seq_axioms;

/// A deployment region, named by its airport code.
#[derive(Clone, Copy, PartialEq, Eq, Structural, Debug)]
pub enum MachineRegions {
    Ams,
    Arn,
    Atl,
    Bog,
    Bom,
    Bos,
    Cdg,
    Den,
    Dfw,
    Ewr,
    Eze,
    Fra,
    Gdl,
    Gig,
    Gru,
    Hkg,
    Iad,
    Jnb,
    Lax,
    Lhr,
    Mad,
    Mia,
    Nrt,
    Ord,
    Otp,
    Phx,
    Qro,
    Scl,
    Sea,
    Sin,
    Sjc,
    Syd,
    Waw,
    Yul,
    Yyz,
}

impl DeepView for MachineRegions {
    type V = MachineRegions;

    open spec fn deep_view(&self) -> MachineRegions {
        *self
    }
}

pub open spec fn region_name(k: MachineRegions) -> Seq<char> {
    match k {
        MachineRegions::Ams => "ams"@,
        MachineRegions::Arn => "arn"@,
        MachineRegions::Atl => "atl"@,
        MachineRegions::Bog => "bog"@,
        MachineRegions::Bom => "bom"@,
        MachineRegions::Bos => "bos"@,
        MachineRegions::Cdg => "cdg"@,
        MachineRegions::Den => "den"@,
        MachineRegions::Dfw => "dfw"@,
        MachineRegions::Ewr => "ewr"@,
        MachineRegions::Eze => "eze"@,
        MachineRegions::Fra => "fra"@,
        MachineRegions::Gdl => "gdl"@,
        MachineRegions::Gig => "gig"@,
        MachineRegions::Gru => "gru"@,
        MachineRegions::Hkg => "hkg"@,
        MachineRegions::Iad => "iad"@,
        MachineRegions::Jnb => "jnb"@,
        MachineRegions::Lax => "lax"@,
        MachineRegions::Lhr => "lhr"@,
        MachineRegions::Mad => "mad"@,
        MachineRegions::Mia => "mia"@,
        MachineRegions::Nrt => "nrt"@,
        MachineRegions::Ord => "ord"@,
        MachineRegions::Otp => "otp"@,
        MachineRegions::Phx => "phx"@,
        MachineRegions::Qro => "qro"@,
        MachineRegions::Scl => "scl"@,
        MachineRegions::Sea => "sea"@,
        MachineRegions::Sin => "sin"@,
        MachineRegions::Sjc => "sjc"@,
        MachineRegions::Syd => "syd"@,
        MachineRegions::Waw => "waw"@,
        MachineRegions::Yul => "yul"@,
        MachineRegions::Yyz => "yyz"@,
    }
}

pub open spec fn region_jv(k: MachineRegions) -> JsonV {
    JsonV::Str(region_name(k))
}

pub open spec fn region_of_jv(j: JsonV) -> Option<MachineRegions> {
    match j {
        JsonV::Str(s) => if s == "ams"@ {
            Some(MachineRegions::Ams)
        } else if s == "arn"@ {
            Some(MachineRegions::Arn)
        } else if s == "atl"@ {
            Some(MachineRegions::Atl)
        } else if s == "bog"@ {
            Some(MachineRegions::Bog)
        } else if s == "bom"@ {
            Some(MachineRegions::Bom)
        } else if s == "bos"@ {
            Some(MachineRegions::Bos)
        } else if s == "cdg"@ {
            Some(MachineRegions::Cdg)
        } else if s == "den"@ {
            Some(MachineRegions::Den)
        } else if s == "dfw"@ {
            Some(MachineRegions::Dfw)
        } else if s == "ewr"@ {
            Some(MachineRegions::Ewr)
        } else if s == "eze"@ {
            Some(MachineRegions::Eze)
        } else if s == "fra"@ {
            Some(MachineRegions::Fra)
        } else if s == "gdl"@ {
            Some(MachineRegions::Gdl)
        } else if s == "gig"@ {
            Some(MachineRegions::Gig)
        } else if s == "gru"@ {
            Some(MachineRegions::Gru)
        } else if s == "hkg"@ {
            Some(MachineRegions::Hkg)
        } else if s == "iad"@ {
            Some(MachineRegions::Iad)
        } else if s == "jnb"@ {
            Some(MachineRegions::Jnb)
        } else if s == "lax"@ {
            Some(MachineRegions::Lax)
        } else if s == "lhr"@ {
            Some(MachineRegions::Lhr)
        } else if s == "mad"@ {
            Some(MachineRegions::Mad)
        } else if s == "mia"@ {
            Some(MachineRegions::Mia)
        } else if s == "nrt"@ {
            Some(MachineRegions::Nrt)
        } else if s == "ord"@ {
            Some(MachineRegions::Ord)
        } else if s == "otp"@ {
            Some(MachineRegions::Otp)
        } else if s == "phx"@ {
            Some(MachineRegions::Phx)
        } else if s == "qro"@ {
            Some(MachineRegions::Qro)
        } else if s == "scl"@ {
            Some(MachineRegions::Scl)
        } else if s == "sea"@ {
            Some(MachineRegions::Sea)
        } else if s == "sin"@ {
            Some(MachineRegions::Sin)
        } else if s == "sjc"@ {
            Some(MachineRegions::Sjc)
        } else if s == "syd"@ {
            Some(MachineRegions::Syd)
        } else if s == "waw"@ {
            Some(MachineRegions::Waw)
        } else if s == "yul"@ {
            Some(MachineRegions::Yul)
        } else if s == "yyz"@ {
            Some(MachineRegions::Yyz)
        } else {
            None
        },
        _ => None,
    }
}

impl MachineRegions {
    /// The wire name of this value.
    pub fn code(&self) -> (s: String)
        ensures
            s@ == region_name(*self),
    {
        match self {
            MachineRegions::Ams => "ams".to_owned(),
            MachineRegions::Arn => "arn".to_owned(),
            MachineRegions::Atl => "atl".to_owned(),
            MachineRegions::Bog => "bog".to_owned(),
            MachineRegions::Bom => "bom".to_owned(),
            MachineRegions::Bos => "bos".to_owned(),
            MachineRegions::Cdg => "cdg".to_owned(),
            MachineRegions::Den => "den".to_owned(),
            MachineRegions::Dfw => "dfw".to_owned(),
            MachineRegions::Ewr => "ewr".to_owned(),
            MachineRegions::Eze => "eze".to_owned(),
            MachineRegions::Fra => "fra".to_owned(),
            MachineRegions::Gdl => "gdl".to_owned(),
            MachineRegions::Gig => "gig".to_owned(),
            MachineRegions::Gru => "gru".to_owned(),
            MachineRegions::Hkg => "hkg".to_owned(),
            MachineRegions::Iad => "iad".to_owned(),
            MachineRegions::Jnb => "jnb".to_owned(),
            MachineRegions::Lax => "lax".to_owned(),
            MachineRegions::Lhr => "lhr".to_owned(),
            MachineRegions::Mad => "mad".to_owned(),
            MachineRegions::Mia => "mia".to_owned(),
            MachineRegions::Nrt => "nrt".to_owned(),
            MachineRegions::Ord => "ord".to_owned(),
            MachineRegions::Otp => "otp".to_owned(),
            MachineRegions::Phx => "phx".to_owned(),
            MachineRegions::Qro => "qro".to_owned(),
            MachineRegions::Scl => "scl".to_owned(),
            MachineRegions::Sea => "sea".to_owned(),
            MachineRegions::Sin => "sin".to_owned(),
            MachineRegions::Sjc => "sjc".to_owned(),
            MachineRegions::Syd => "syd".to_owned(),
            MachineRegions::Waw => "waw".to_owned(),
            MachineRegions::Yul => "yul".to_owned(),
            MachineRegions::Yyz => "yyz".to_owned(),
        }
    }

    pub fn to_json(&self) -> (j: Json)
        ensures
            j.deep_view() == region_jv(*self),
    {
        Json::Str(self.code())
    }

    pub fn from_json(j: &Json) -> (r: Option<Self>)
        ensures
            r == region_of_jv(j.deep_view()),
    {
        match j {
            Json::Str(s) => {
                if *s == "ams".to_owned() {
                    Some(MachineRegions::Ams)
                } else if *s == "arn".to_owned() {
                    Some(MachineRegions::Arn)
                } else if *s == "atl".to_owned() {
                    Some(MachineRegions::Atl)
                } else if *s == "bog".to_owned() {
                    Some(MachineRegions::Bog)
                } else if *s == "bom".to_owned() {
                    Some(MachineRegions::Bom)
                } else if *s == "bos".to_owned() {
                    Some(MachineRegions::Bos)
                } else if *s == "cdg".to_owned() {
                    Some(MachineRegions::Cdg)
                } else if *s == "den".to_owned() {
                    Some(MachineRegions::Den)
                } else if *s == "dfw".to_owned() {
                    Some(MachineRegions::Dfw)
                } else if *s == "ewr".to_owned() {
                    Some(MachineRegions::Ewr)
                } else if *s == "eze".to_owned() {
                    Some(MachineRegions::Eze)
                } else if *s == "fra".to_owned() {
                    Some(MachineRegions::Fra)
                } else if *s == "gdl".to_owned() {
                    Some(MachineRegions::Gdl)
                } else if *s == "gig".to_owned() {
                    Some(MachineRegions::Gig)
                } else if *s == "gru".to_owned() {
                    Some(MachineRegions::Gru)
                } else if *s == "hkg".to_owned() {
                    Some(MachineRegions::Hkg)
                } else if *s == "iad".to_owned() {
                    Some(MachineRegions::Iad)
                } else if *s == "jnb".to_owned() {
                    Some(MachineRegions::Jnb)
                } else if *s == "lax".to_owned() {
                    Some(MachineRegions::Lax)
                } else if *s == "lhr".to_owned() {
                    Some(MachineRegions::Lhr)
                } else if *s == "mad".to_owned() {
                    Some(MachineRegions::Mad)
                } else if *s == "mia".to_owned() {
                    Some(MachineRegions::Mia)
                } else if *s == "nrt".to_owned() {
                    Some(MachineRegions::Nrt)
                } else if *s == "ord".to_owned() {
                    Some(MachineRegions::Ord)
                } else if *s == "otp".to_owned() {
                    Some(MachineRegions::Otp)
                } else if *s == "phx".to_owned() {
                    Some(MachineRegions::Phx)
                } else if *s == "qro".to_owned() {
                    Some(MachineRegions::Qro)
                } else if *s == "scl".to_owned() {
                    Some(MachineRegions::Scl)
                } else if *s == "sea".to_owned() {
                    Some(MachineRegions::Sea)
                } else if *s == "sin".to_owned() {
                    Some(MachineRegions::Sin)
                } else if *s == "sjc".to_owned() {
                    Some(MachineRegions::Sjc)
                } else if *s == "syd".to_owned() {
                    Some(MachineRegions::Syd)
                } else if *s == "waw".to_owned() {
                    Some(MachineRegions::Waw)
                } else if *s == "yul".to_owned() {
                    Some(MachineRegions::Yul)
                } else if *s == "yyz".to_owned() {
                    Some(MachineRegions::Yyz)
                } else {
                    None
                }
            },
            _ => None,
        }
    }
}

pub open spec fn jv_opt_region(j: JsonV, key: Seq<char>) -> Option<Option<MachineRegions>> {
    match json_member(j, key) {
        None => Some(None),
        Some(JsonV::Null) => Some(None),
        Some(v) => match region_of_jv(v) {
            Some(k) => Some(Some(k)),
            None => None,
        },
    }
}

pub fn opt_region_field(j: &Json, key: &str) -> (r: Option<Option<MachineRegions>>)
    ensures
        r == jv_opt_region(j.deep_view(), key@),
{
    let k = key.to_owned();
    match j.get(&k) {
        None => Some(None),
        Some(Json::Null) => Some(None),
        Some(v) => match MachineRegions::from_json(v) {
            Some(x) => Some(Some(x)),
            None => None,
        },
    }
}

#[verifier::rlimit(100)]
pub proof fn lemma_region_round_trip(k: MachineRegions)
    ensures
        region_of_jv(region_jv(k)) == Some(k),
{
    reveal_strlit("ams");
    reveal_strlit("arn");
    reveal_strlit("atl");
    reveal_strlit("bog");
    reveal_strlit("bom");
    reveal_strlit("bos");
    reveal_strlit("cdg");
    reveal_strlit("den");
    reveal_strlit("dfw");
    reveal_strlit("ewr");
    reveal_strlit("eze");
    reveal_strlit("fra");
    reveal_strlit("gdl");
    reveal_strlit("gig");
    reveal_strlit("gru");
    reveal_strlit("hkg");
    reveal_strlit("iad");
    reveal_strlit("jnb");
    reveal_strlit("lax");
    reveal_strlit("lhr");
    reveal_strlit("mad");
    reveal_strlit("mia");
    reveal_strlit("nrt");
    reveal_strlit("ord");
    reveal_strlit("otp");
    reveal_strlit("phx");
    reveal_strlit("qro");
    reveal_strlit("scl");
    reveal_strlit("sea");
    reveal_strlit("sin");
    reveal_strlit("sjc");
    reveal_strlit("syd");
    reveal_strlit("waw");
    reveal_strlit("yul");
    reveal_strlit("yyz");
    assert("ams"@.len() == 3);
    assert("arn"@.len() == 3);
    assert("atl"@.len() == 3);
    assert("bog"@.len() == 3);
    assert("bom"@.len() == 3);
    assert("bos"@.len() == 3);
    assert("cdg"@.len() == 3);
    assert("den"@.len() == 3);
    assert("dfw"@.len() == 3);
    assert("ewr"@.len() == 3);
    assert("eze"@.len() == 3);
    assert("fra"@.len() == 3);
    assert("gdl"@.len() == 3);
    assert("gig"@.len() == 3);
    assert("gru"@.len() == 3);
    assert("hkg"@.len() == 3);
    assert("iad"@.len() == 3);
    assert("jnb"@.len() == 3);
    assert("lax"@.len() == 3);
    assert("lhr"@.len() == 3);
    assert("mad"@.len() == 3);
    assert("mia"@.len() == 3);
    assert("nrt"@.len() == 3);
    assert("ord"@.len() == 3);
    assert("otp"@.len() == 3);
    assert("phx"@.len() == 3);
    assert("qro"@.len() == 3);
    assert("scl"@.len() == 3);
    assert("sea"@.len() == 3);
    assert("sin"@.len() == 3);
    assert("sjc"@.len() == 3);
    assert("syd"@.len() == 3);
    assert("waw"@.len() == 3);
    assert("yul"@.len() == 3);
    assert("yyz"@.len() == 3);
    assert("ams"@[1] == 'm');
    assert("arn"@[1] == 'r');
    assert("atl"@[1] == 't');
    assert("ams"@[0] == 'a');
    assert("bog"@[0] == 'b');
    assert("bom"@[0] == 'b');
    assert("bos"@[0] == 'b');
    assert("cdg"@[0] == 'c');
    assert("den"@[0] == 'd');
    assert("dfw"@[0] == 'd');
    assert("ewr"@[0] == 'e');
    assert("eze"@[0] == 'e');
    assert("fra"@[0] == 'f');
    assert("gdl"@[0] == 'g');
    assert("gig"@[0] == 'g');
    assert("gru"@[0] == 'g');
    assert("hkg"@[0] == 'h');
    assert("iad"@[0] == 'i');
    assert("jnb"@[0] == 'j');
    assert("lax"@[0] == 'l');
    assert("lhr"@[0] == 'l');
    assert("mad"@[0] == 'm');
    assert("mia"@[0] == 'm');
    assert("nrt"@[0] == 'n');
    assert("ord"@[0] == 'o');
    assert("otp"@[0] == 'o');
    assert("phx"@[0] == 'p');
    assert("qro"@[0] == 'q');
    assert("scl"@[0] == 's');
    assert("sea"@[0] == 's');
    assert("sin"@[0] == 's');
    assert("sjc"@[0] == 's');
    assert("syd"@[0] == 's');
    assert("waw"@[0] == 'w');
    assert("yul"@[0] == 'y');
    assert("yyz"@[0] == 'y');
    assert("arn"@[0] == 'a');
    assert("atl"@[0] == 'a');
    assert("bog"@[2] == 'g');
    assert("bom"@[2] == 'm');
    assert("bos"@[2] == 's');
    assert("den"@[1] == 'e');
    assert("dfw"@[1] == 'f');
    assert("ewr"@[1] == 'w');
    assert("eze"@[1] == 'z');
    assert("gdl"@[1] == 'd');
    assert("gig"@[1] == 'i');
    assert("gru"@[1] == 'r');
    assert("lax"@[1] == 'a');
    assert("lhr"@[1] == 'h');
    assert("mad"@[1] == 'a');
    assert("mia"@[1] == 'i');
    assert("ord"@[1] == 'r');
    assert("otp"@[1] == 't');
    assert("scl"@[1] == 'c');
    assert("sea"@[1] == 'e');
    assert("sin"@[1] == 'i');
    assert("sjc"@[1] == 'j');
    assert("syd"@[1] == 'y');
    assert("yul"@[1] == 'u');
    assert("yyz"@[1] == 'y');
}
} // verus!

//! The output formats the converter can produce.
use crate::settings::ExternalSettings;
use crate::text::{
    is_digit, lemma_nat_decimal_digits, chars_of, eq_str, fold_char, fold_lower, fold_lower_exec, i64_decimal, int_decimal,
    nat_decimal, non_empty, push_all, string_of,
};
use vstd::prelude::*;

verus! {

/// Output format of a conversion.
#[derive(Debug, Clone, Copy, PartialEq, Eq, Structural, Hash)]
pub enum SubconverterTarget {
    Auto,
    Clash,
    ClashR,
    /// Surge, with its version.
    Surge(i32),
    Surfboard,
    Mellow,
    SSSub,
    SS,
    SSR,
    V2Ray,
    Trojan,
    Mixed,
    Quantumult,
    QuantumultX,
    Loon,
    SSD,
    SingBox,
}

/// The target a lower-case name designates. `surge` means Surge 3;
/// `shadowrocket` means Mixed and `surfboardios` means Surfboard.
pub open spec fn target_of_name(n: Seq<char>) -> Option<SubconverterTarget> {
    if n == "auto"@ {
        Some(SubconverterTarget::Auto)
    } else if n == "clash"@ {
        Some(SubconverterTarget::Clash)
    } else if n == "clashr"@ {
        Some(SubconverterTarget::ClashR)
    } else if n == "surge"@ {
        Some(SubconverterTarget::Surge(3))
    } else if n == "surfboard"@ {
        Some(SubconverterTarget::Surfboard)
    } else if n == "mellow"@ {
        Some(SubconverterTarget::Mellow)
    } else if n == "sssub"@ {
        Some(SubconverterTarget::SSSub)
    } else if n == "ss"@ {
        Some(SubconverterTarget::SS)
    } else if n == "ssr"@ {
        Some(SubconverterTarget::SSR)
    } else if n == "v2ray"@ {
        Some(SubconverterTarget::V2Ray)
    } else if n == "trojan"@ {
        Some(SubconverterTarget::Trojan)
    } else if n == "mixed"@ {
        Some(SubconverterTarget::Mixed)
    } else if n == "quan"@ {
        Some(SubconverterTarget::Quantumult)
    } else if n == "quanx"@ {
        Some(SubconverterTarget::QuantumultX)
    } else if n == "loon"@ {
        Some(SubconverterTarget::Loon)
    } else if n == "ssd"@ {
        Some(SubconverterTarget::SSD)
    } else if n == "singbox"@ {
        Some(SubconverterTarget::SingBox)
    } else if n == "shadowrocket"@ {
        Some(SubconverterTarget::Mixed)
    } else if n == "surfboardios"@ {
        Some(SubconverterTarget::Surfboard)
    } else {
        None
    }
}

/// The name of a target; Surge carries its version, as in `surge4`.
pub open spec fn target_name(t: SubconverterTarget) -> Seq<char> {
    match t {
        SubconverterTarget::Auto => "auto"@,
        SubconverterTarget::Clash => "clash"@,
        SubconverterTarget::ClashR => "clashr"@,
        SubconverterTarget::Surge(v) => "surge"@ + int_decimal(v as int),
        SubconverterTarget::Surfboard => "surfboard"@,
        SubconverterTarget::Mellow => "mellow"@,
        SubconverterTarget::SSSub => "sssub"@,
        SubconverterTarget::SS => "ss"@,
        SubconverterTarget::SSR => "ssr"@,
        SubconverterTarget::V2Ray => "v2ray"@,
        SubconverterTarget::Trojan => "trojan"@,
        SubconverterTarget::Mixed => "mixed"@,
        SubconverterTarget::Quantumult => "quan"@,
        SubconverterTarget::QuantumultX => "quanx"@,
        SubconverterTarget::Loon => "loon"@,
        SubconverterTarget::SSD => "ssd"@,
        SubconverterTarget::SingBox => "singbox"@,
    }
}

/// The Clash family.
pub open spec fn is_clash_target(t: SubconverterTarget) -> bool {
    t == SubconverterTarget::Clash || t == SubconverterTarget::ClashR
}

/// Targets that are plain node lists.
pub open spec fn is_simple_target(t: SubconverterTarget) -> bool {
    ||| t == SubconverterTarget::SS
    ||| t == SubconverterTarget::SSR
    ||| t == SubconverterTarget::SSD
    ||| t == SubconverterTarget::V2Ray
    ||| t == SubconverterTarget::Trojan
}

/// The base configuration an external configuration names for a target, if
/// it names a non-empty one.
pub open spec fn external_base(t: SubconverterTarget, e: &ExternalSettings) -> Option<Seq<char>> {
    match t {
        SubconverterTarget::Clash | SubconverterTarget::ClashR => non_empty(e.clash_rule_base@),
        SubconverterTarget::Surge(_) => non_empty(e.surge_rule_base@),
        SubconverterTarget::Surfboard => non_empty(e.surfboard_rule_base@),
        SubconverterTarget::Mellow => non_empty(e.mellow_rule_base@),
        SubconverterTarget::Quantumult => non_empty(e.quan_rule_base@),
        SubconverterTarget::QuantumultX => non_empty(e.quanx_rule_base@),
        SubconverterTarget::Loon => non_empty(e.loon_rule_base@),
        SubconverterTarget::SSSub => non_empty(e.sssub_rule_base@),
        SubconverterTarget::SingBox => non_empty(e.singbox_rule_base@),
        _ => None,
    }
}

fn base_of(s: &String) -> (r: Option<String>)
    ensures
        match r {
            Some(x) => non_empty(s@) == Some(x@),
            None => non_empty(s@) is None,
        },
{
    if s.as_str().is_empty() {
        None
    } else {
        Some(s.clone())
    }
}

impl SubconverterTarget {
    /// The target named by `s`, compared without regard to case.
    pub fn from_str(s: &str) -> (r: Option<Self>)
        ensures
            r == target_of_name(fold_lower(s@)),
    {
        let c = chars_of(s);
        let n = fold_lower_exec(c.as_slice());
        let n = n.as_slice();
        if eq_str(n, "auto") {
            Some(SubconverterTarget::Auto)
        } else if eq_str(n, "clash") {
            Some(SubconverterTarget::Clash)
        } else if eq_str(n, "clashr") {
            Some(SubconverterTarget::ClashR)
        } else if eq_str(n, "surge") {
            Some(SubconverterTarget::Surge(3))
        } else if eq_str(n, "surfboard") {
            Some(SubconverterTarget::Surfboard)
        } else if eq_str(n, "mellow") {
            Some(SubconverterTarget::Mellow)
        } else if eq_str(n, "sssub") {
            Some(SubconverterTarget::SSSub)
        } else if eq_str(n, "ss") {
            Some(SubconverterTarget::SS)
        } else if eq_str(n, "ssr") {
            Some(SubconverterTarget::SSR)
        } else if eq_str(n, "v2ray") {
            Some(SubconverterTarget::V2Ray)
        } else if eq_str(n, "trojan") {
            Some(SubconverterTarget::Trojan)
        } else if eq_str(n, "mixed") {
            Some(SubconverterTarget::Mixed)
        } else if eq_str(n, "quan") {
            Some(SubconverterTarget::Quantumult)
        } else if eq_str(n, "quanx") {
            Some(SubconverterTarget::QuantumultX)
        } else if eq_str(n, "loon") {
            Some(SubconverterTarget::Loon)
        } else if eq_str(n, "ssd") {
            Some(SubconverterTarget::SSD)
        } else if eq_str(n, "singbox") {
            Some(SubconverterTarget::SingBox)
        } else if eq_str(n, "shadowrocket") {
            Some(SubconverterTarget::Mixed)
        } else if eq_str(n, "surfboardios") {
            Some(SubconverterTarget::Surfboard)
        } else {
            None
        }
    }

    /// The name of the target.
    pub fn to_str(&self) -> (r: String)
        ensures
            r@ == target_name(*self),
    {
        match self {
            SubconverterTarget::Auto => "auto".to_owned(),
            SubconverterTarget::Clash => "clash".to_owned(),
            SubconverterTarget::ClashR => "clashr".to_owned(),
            SubconverterTarget::Surge(ver) => {
                let mut v = chars_of("surge");
                let d = i64_decimal(*ver as i64);
                push_all(&mut v, d.as_slice());
                string_of(v.as_slice())
            },
            SubconverterTarget::Surfboard => "surfboard".to_owned(),
            SubconverterTarget::Mellow => "mellow".to_owned(),
            SubconverterTarget::SSSub => "sssub".to_owned(),
            SubconverterTarget::SS => "ss".to_owned(),
            SubconverterTarget::SSR => "ssr".to_owned(),
            SubconverterTarget::V2Ray => "v2ray".to_owned(),
            SubconverterTarget::Trojan => "trojan".to_owned(),
            SubconverterTarget::Mixed => "mixed".to_owned(),
            SubconverterTarget::Quantumult => "quan".to_owned(),
            SubconverterTarget::QuantumultX => "quanx".to_owned(),
            SubconverterTarget::Loon => "loon".to_owned(),
            SubconverterTarget::SSD => "ssd".to_owned(),
            SubconverterTarget::SingBox => "singbox".to_owned(),
        }
    }

    /// Whether the target is Clash or ClashR.
    pub fn is_clash(&self) -> (r: bool)
        ensures
            r == is_clash_target(*self),
    {
        match self {
            SubconverterTarget::Clash | SubconverterTarget::ClashR => true,
            _ => false,
        }
    }

    /// Whether the target is a plain node list (ss, ssr, ssd, v2ray, trojan).
    pub fn is_simple(&self) -> (r: bool)
        ensures
            r == is_simple_target(*self),
    {
        match self {
            SubconverterTarget::SS | SubconverterTarget::SSR | SubconverterTarget::SSD
            | SubconverterTarget::V2Ray | SubconverterTarget::Trojan => true,
            _ => false,
        }
    }

    /// The base configuration the external configuration names for this target.
    pub fn get_base_content_from_external(&self, external: &ExternalSettings) -> (r: Option<String>)
        ensures
            match r {
                Some(x) => external_base(*self, external) == Some(x@),
                None => external_base(*self, external) is None,
            },
    {
        match self {
            SubconverterTarget::Clash | SubconverterTarget::ClashR => base_of(&external.clash_rule_base),
            SubconverterTarget::Surge(_) => base_of(&external.surge_rule_base),
            SubconverterTarget::Surfboard => base_of(&external.surfboard_rule_base),
            SubconverterTarget::Mellow => base_of(&external.mellow_rule_base),
            SubconverterTarget::Quantumult => base_of(&external.quan_rule_base),
            SubconverterTarget::QuantumultX => base_of(&external.quanx_rule_base),
            SubconverterTarget::Loon => base_of(&external.loon_rule_base),
            SubconverterTarget::SSSub => base_of(&external.sssub_rule_base),
            SubconverterTarget::SingBox => base_of(&external.singbox_rule_base),
            _ => None,
        }
    }
}

/// Lower-casing leaves text without capitals unchanged.
pub proof fn lemma_fold_lower_id(s: Seq<char>)
    requires
        forall|i: int| 0 <= i < s.len() ==> fold_char(#[trigger] s[i]) == s[i],
    ensures
        fold_lower(s) == s,
{
    assert(fold_lower(s) =~= s);
}

/// Every target but Surge is found again from its own name.
pub proof fn law_target_name_round_trip(t: SubconverterTarget)
    requires
        !(t is Surge),
    ensures
        target_of_name(fold_lower(target_name(t))) == Some(t),
{
    reveal_strlit("auto");
    reveal_strlit("clash");
    reveal_strlit("clashr");
    reveal_strlit("surge");
    reveal_strlit("surfboard");
    reveal_strlit("mellow");
    reveal_strlit("sssub");
    reveal_strlit("ss");
    reveal_strlit("ssr");
    reveal_strlit("v2ray");
    reveal_strlit("trojan");
    reveal_strlit("mixed");
    reveal_strlit("quan");
    reveal_strlit("quanx");
    reveal_strlit("loon");
    reveal_strlit("ssd");
    reveal_strlit("singbox");
    reveal_strlit("shadowrocket");
    reveal_strlit("surfboardios");
    assert(target_of_name(fold_lower(target_name(SubconverterTarget::Auto))) == Some(SubconverterTarget::Auto)) by {
        let n = target_name(SubconverterTarget::Auto);
        assert forall|i: int| 0 <= i < n.len() implies fold_char(#[trigger] n[i]) == n[i] by {
            assert('a' <= n[i] <= 'z' || '0' <= n[i] <= '9');
        }
        lemma_fold_lower_id(n);
    }
    assert(target_of_name(fold_lower(target_name(SubconverterTarget::Clash))) == Some(SubconverterTarget::Clash)) by {
        let n = target_name(SubconverterTarget::Clash);
        assert forall|i: int| 0 <= i < n.len() implies fold_char(#[trigger] n[i]) == n[i] by {
            assert('a' <= n[i] <= 'z' || '0' <= n[i] <= '9');
        }
        lemma_fold_lower_id(n);
    }
    assert(target_of_name(fold_lower(target_name(SubconverterTarget::ClashR))) == Some(SubconverterTarget::ClashR)) by {
        let n = target_name(SubconverterTarget::ClashR);
        assert forall|i: int| 0 <= i < n.len() implies fold_char(#[trigger] n[i]) == n[i] by {
            assert('a' <= n[i] <= 'z' || '0' <= n[i] <= '9');
        }
        lemma_fold_lower_id(n);
    }
    assert(target_of_name(fold_lower(target_name(SubconverterTarget::Surfboard))) == Some(SubconverterTarget::Surfboard)) by {
        let n = target_name(SubconverterTarget::Surfboard);
        assert forall|i: int| 0 <= i < n.len() implies fold_char(#[trigger] n[i]) == n[i] by {
            assert('a' <= n[i] <= 'z' || '0' <= n[i] <= '9');
        }
        lemma_fold_lower_id(n);
    }
    assert(target_of_name(fold_lower(target_name(SubconverterTarget::Mellow))) == Some(SubconverterTarget::Mellow)) by {
        let n = target_name(SubconverterTarget::Mellow);
        assert forall|i: int| 0 <= i < n.len() implies fold_char(#[trigger] n[i]) == n[i] by {
            assert('a' <= n[i] <= 'z' || '0' <= n[i] <= '9');
        }
        lemma_fold_lower_id(n);
        assert("mellow"@[0] != "clashr"@[0]);
    }
    assert(target_of_name(fold_lower(target_name(SubconverterTarget::SSSub))) == Some(SubconverterTarget::SSSub)) by {
        let n = target_name(SubconverterTarget::SSSub);
        assert forall|i: int| 0 <= i < n.len() implies fold_char(#[trigger] n[i]) == n[i] by {
            assert('a' <= n[i] <= 'z' || '0' <= n[i] <= '9');
        }
        lemma_fold_lower_id(n);
        assert("sssub"@[0] != "clash"@[0]);
        assert("sssub"@[1] != "surge"@[1]);
    }
    assert(target_of_name(fold_lower(target_name(SubconverterTarget::SS))) == Some(SubconverterTarget::SS)) by {
        let n = target_name(SubconverterTarget::SS);
        assert forall|i: int| 0 <= i < n.len() implies fold_char(#[trigger] n[i]) == n[i] by {
            assert('a' <= n[i] <= 'z' || '0' <= n[i] <= '9');
        }
        lemma_fold_lower_id(n);
    }
    assert(target_of_name(fold_lower(target_name(SubconverterTarget::SSR))) == Some(SubconverterTarget::SSR)) by {
        let n = target_name(SubconverterTarget::SSR);
        assert forall|i: int| 0 <= i < n.len() implies fold_char(#[trigger] n[i]) == n[i] by {
            assert('a' <= n[i] <= 'z' || '0' <= n[i] <= '9');
        }
        lemma_fold_lower_id(n);
    }
    assert(target_of_name(fold_lower(target_name(SubconverterTarget::V2Ray))) == Some(SubconverterTarget::V2Ray)) by {
        let n = target_name(SubconverterTarget::V2Ray);
        assert forall|i: int| 0 <= i < n.len() implies fold_char(#[trigger] n[i]) == n[i] by {
            assert('a' <= n[i] <= 'z' || '0' <= n[i] <= '9');
        }
        lemma_fold_lower_id(n);
        assert("v2ray"@[0] != "clash"@[0]);
        assert("v2ray"@[0] != "surge"@[0]);
        assert("v2ray"@[0] != "sssub"@[0]);
    }
    assert(target_of_name(fold_lower(target_name(SubconverterTarget::Trojan))) == Some(SubconverterTarget::Trojan)) by {
        let n = target_name(SubconverterTarget::Trojan);
        assert forall|i: int| 0 <= i < n.len() implies fold_char(#[trigger] n[i]) == n[i] by {
            assert('a' <= n[i] <= 'z' || '0' <= n[i] <= '9');
        }
        lemma_fold_lower_id(n);
        assert("trojan"@[0] != "clashr"@[0]);
        assert("trojan"@[0] != "mellow"@[0]);
    }
    assert(target_of_name(fold_lower(target_name(SubconverterTarget::Mixed))) == Some(SubconverterTarget::Mixed)) by {
        let n = target_name(SubconverterTarget::Mixed);
        assert forall|i: int| 0 <= i < n.len() implies fold_char(#[trigger] n[i]) == n[i] by {
            assert('a' <= n[i] <= 'z' || '0' <= n[i] <= '9');
        }
        lemma_fold_lower_id(n);
        assert("mixed"@[0] != "clash"@[0]);
        assert("mixed"@[0] != "surge"@[0]);
        assert("mixed"@[0] != "sssub"@[0]);
        assert("mixed"@[0] != "v2ray"@[0]);
    }
    assert(target_of_name(fold_lower(target_name(SubconverterTarget::Quantumult))) == Some(SubconverterTarget::Quantumult)) by {
        let n = target_name(SubconverterTarget::Quantumult);
        assert forall|i: int| 0 <= i < n.len() implies fold_char(#[trigger] n[i]) == n[i] by {
            assert('a' <= n[i] <= 'z' || '0' <= n[i] <= '9');
        }
        lemma_fold_lower_id(n);
        assert("quan"@[0] != "auto"@[0]);
    }
    assert(target_of_name(fold_lower(target_name(SubconverterTarget::QuantumultX))) == Some(SubconverterTarget::QuantumultX)) by {
        let n = target_name(SubconverterTarget::QuantumultX);
        assert forall|i: int| 0 <= i < n.len() implies fold_char(#[trigger] n[i]) == n[i] by {
            assert('a' <= n[i] <= 'z' || '0' <= n[i] <= '9');
        }
        lemma_fold_lower_id(n);
        assert("quanx"@[0] != "clash"@[0]);
        assert("quanx"@[0] != "surge"@[0]);
        assert("quanx"@[0] != "sssub"@[0]);
        assert("quanx"@[0] != "v2ray"@[0]);
        assert("quanx"@[0] != "mixed"@[0]);
    }
    assert(target_of_name(fold_lower(target_name(SubconverterTarget::Loon))) == Some(SubconverterTarget::Loon)) by {
        let n = target_name(SubconverterTarget::Loon);
        assert forall|i: int| 0 <= i < n.len() implies fold_char(#[trigger] n[i]) == n[i] by {
            assert('a' <= n[i] <= 'z' || '0' <= n[i] <= '9');
        }
        lemma_fold_lower_id(n);
        assert("loon"@[0] != "auto"@[0]);
        assert("loon"@[0] != "quan"@[0]);
    }
    assert(target_of_name(fold_lower(target_name(SubconverterTarget::SSD))) == Some(SubconverterTarget::SSD)) by {
        let n = target_name(SubconverterTarget::SSD);
        assert forall|i: int| 0 <= i < n.len() implies fold_char(#[trigger] n[i]) == n[i] by {
            assert('a' <= n[i] <= 'z' || '0' <= n[i] <= '9');
        }
        lemma_fold_lower_id(n);
        assert("ssd"@[2] != "ssr"@[2]);
    }
    assert(target_of_name(fold_lower(target_name(SubconverterTarget::SingBox))) == Some(SubconverterTarget::SingBox)) by {
        let n = target_name(SubconverterTarget::SingBox);
        assert forall|i: int| 0 <= i < n.len() implies fold_char(#[trigger] n[i]) == n[i] by {
            assert('a' <= n[i] <= 'z' || '0' <= n[i] <= '9');
        }
        lemma_fold_lower_id(n);
    }
}

/// A versioned Surge name such as `surge4` designates no target: only the
/// bare name `surge` does.
pub proof fn law_surge_name_not_parsed(v: i32)
    ensures
        target_of_name(fold_lower(target_name(SubconverterTarget::Surge(v)))) is None,
{
    reveal_strlit("auto");
    reveal_strlit("clash");
    reveal_strlit("clashr");
    reveal_strlit("surge");
    reveal_strlit("surfboard");
    reveal_strlit("mellow");
    reveal_strlit("sssub");
    reveal_strlit("ss");
    reveal_strlit("ssr");
    reveal_strlit("v2ray");
    reveal_strlit("trojan");
    reveal_strlit("mixed");
    reveal_strlit("quan");
    reveal_strlit("quanx");
    reveal_strlit("loon");
    reveal_strlit("ssd");
    reveal_strlit("singbox");
    reveal_strlit("shadowrocket");
    reveal_strlit("surfboardios");
    let d = int_decimal(v as int);
    let m: nat = if v < 0 { (-(v as int)) as nat } else { v as nat };
    lemma_nat_decimal_digits(m);
    let n = "surge"@ + d;
    assert forall|i: int| 0 <= i < n.len() implies fold_char(#[trigger] n[i]) == n[i] by {
        if i >= 5 {
            assert(n[i] == d[i - 5]);
            if v < 0 && i == 5 {
                assert(d[0] == '-');
            } else if v < 0 {
                assert(d[i - 5] == nat_decimal(m)[i - 6]);
                assert(is_digit(nat_decimal(m)[i - 6]));
            } else {
                assert(is_digit(nat_decimal(m)[i - 5]));
            }
        }
    }
    lemma_fold_lower_id(n);
    assert(n.len() >= 6);
    assert(n[0] == 's' && n[1] == 'u' && n[2] == 'r' && n[3] == 'g' && n[4] == 'e');
}

} // verus!

use vstd::prelude::*;
use vstd::string::StrSliceExecFns;
use vstd::string::StringExecFns;

use crate::point::{Hook, HookFamily, ProtoFamily};

verus! {

/// Width to which the family name is padded in a label.
pub const FAMILY_WIDTH: usize = 6;

/// Display name of a protocol family.
pub open spec fn family_name(f: ProtoFamily) -> Seq<char> {
    match f {
        ProtoFamily::Arp => "arp"@,
        ProtoFamily::Bridge => "bridge"@,
        ProtoFamily::Inet => "inet"@,
        ProtoFamily::Ipv4 => "ipv4"@,
        ProtoFamily::Ipv6 => "ipv6"@,
        ProtoFamily::NetDev => "netdev"@,
    }
}

/// Display name of a hook.
pub open spec fn hook_name(h: Hook) -> Seq<char> {
    match h {
        Hook::In => "input"@,
        Hook::Out => "output"@,
        Hook::Forward => "forward"@,
        Hook::PreRouting => "prerouting"@,
        Hook::PostRouting => "postrouting"@,
    }
}

/// `s` followed by as many spaces as it takes to reach `width` characters.
pub open spec fn pad_right(s: Seq<char>, width: nat) -> Seq<char> {
    if s.len() < width {
        s + Seq::new((width - s.len()) as nat, |i: int| ' ')
    } else {
        s
    }
}

/// The label of a hook and family: `HOOK: <family padded to 6> | <hook> `.
pub open spec fn label_text(h: Hook, f: ProtoFamily) -> Seq<char> {
    "HOOK: "@ + pad_right(family_name(f), FAMILY_WIDTH as nat) + " | "@ + hook_name(h) + " "@
}

/// Display name of a protocol family.
pub fn family_str(f: ProtoFamily) -> (r: &'static str)
    ensures
        r@ == family_name(f),
{
    match f {
        ProtoFamily::Arp => "arp",
        ProtoFamily::Bridge => "bridge",
        ProtoFamily::Inet => "inet",
        ProtoFamily::Ipv4 => "ipv4",
        ProtoFamily::Ipv6 => "ipv6",
        ProtoFamily::NetDev => "netdev",
    }
}

/// Display name of a hook.
pub fn hook_str(h: Hook) -> (r: &'static str)
    ensures
        r@ == hook_name(h),
{
    match h {
        Hook::In => "input",
        Hook::Out => "output",
        Hook::Forward => "forward",
        Hook::PreRouting => "prerouting",
        Hook::PostRouting => "postrouting",
    }
}

impl HookFamily {
    /// Human-readable label of the point.
    pub fn format_label(&self) -> (r: String)
        ensures
            r@ == label_text(self.spec_hook(), self.spec_family()),
    {
        let fam = family_str(self.family());
        let mut s = String::from_str("HOOK: ");
        s.append(fam);
        let mut n: usize = fam.unicode_len();
        let ghost start = s@;
        proof {
            reveal_strlit(" ");
        }
        while n < FAMILY_WIDTH
            invariant
                fam@.len() <= n,
                n <= FAMILY_WIDTH || n == fam@.len(),
                " "@ == seq![' '],
                s@ == start + Seq::new((n - fam@.len()) as nat, |i: int| ' '),
            decreases FAMILY_WIDTH - n,
        {
            s.append(" ");
            n = n + 1;
            assert(s@ =~= start + Seq::new((n - fam@.len()) as nat, |i: int| ' '));
        }
        s.append(" | ");
        s.append(hook_str(self.hook()));
        s.append(" ");
        proof {
            let f = family_name(self.spec_family());
            if f.len() < FAMILY_WIDTH {
                assert(n == FAMILY_WIDTH);
            } else {
                assert(n == f.len());
                assert(Seq::new((n - f.len()) as nat, |i: int| ' ') =~= Seq::<char>::empty());
            }
            assert(s@ =~= label_text(self.spec_hook(), self.spec_family()));
        }
        s
    }
}

} // verus!

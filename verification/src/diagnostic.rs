//! Charging-bottleneck diagnostic: compares a charger's advertisement, the
//! active contract, the cable's rating and what the sink requests, and names
//! the limiting factor.

use vstd::prelude::*;
use crate::cable::CableInfo;
use crate::power::{PowerDataObject, PowerDeliveryPort};
use crate::text::{dec_seq, dec_string, owned, push_str};

verus! {

broadcast use vstd::string::group_string_axioms;

/// Why a USB-C port may not be charging at full speed.
#[derive(Debug, Clone, Copy, PartialEq, Eq, Structural)]
pub enum Bottleneck {
    /// No charger detected (or no source PDOs).
    NoCharger,
    /// Charger is offering less than expected.
    ChargerLimit,
    /// The cable is rated below what the charger can deliver.
    CableLimit,
    /// The negotiated contract is well below what the charger can deliver.
    DeviceLimit,
    /// The contract is healthy but the sink requests much less than it
    /// allows (battery charge limit, thermal policy).
    SinkLimit,
    /// Charging at the charger's maximum.
    Fine,
}

/// Result of [`ChargingDiagnostic::evaluate`].
#[derive(Debug)]
pub struct ChargingDiagnostic {
    /// Categorical bottleneck.
    pub bottleneck: Bottleneck,
    /// One-line headline.
    pub summary: String,
    /// Second-line detail.
    pub detail: String,
    /// `true` when the bottleneck is user-actionable (swap the cable).
    pub is_warning: bool,
}

impl Clone for ChargingDiagnostic {
    fn clone(&self) -> (r: Self)
        ensures
            r == *self,
    {
        ChargingDiagnostic {
            bottleneck: self.bottleneck,
            summary: self.summary.clone(),
            detail: self.detail.clone(),
            is_warning: self.is_warning,
        }
    }
}

/// The first PDO marked active.
pub open spec fn first_active(caps: Seq<PowerDataObject>) -> Option<PowerDataObject>
    decreases caps.len(),
{
    if caps.len() == 0 {
        None
    } else if caps[0].is_active {
        Some(caps[0])
    } else {
        first_active(caps.drop_first())
    }
}

/// Watts of the active contract: the first active PDO's whole watts when
/// positive, else the charger's maximum.
pub open spec fn active_watts(caps: Seq<PowerDataObject>, charger_w: nat) -> nat {
    match first_active(caps) {
        Some(p) => if p.power_mw / 1000 > 0 {
            (p.power_mw / 1000) as nat
        } else {
            charger_w
        },
        None => charger_w,
    }
}

/// The bottleneck for a charger of `charger_w` whole watts, a contract of
/// `active_w`, a cable rated `cable_w` (0 = unknown) and a sink request of
/// `requested_w`. "Well below" means under 80%.
pub open spec fn bottleneck_of(charger_w: nat, active_w: nat, cable_w: nat, requested_w: nat) -> Bottleneck {
    if cable_w > 0 && cable_w < charger_w {
        Bottleneck::CableLimit
    } else if active_w > 0 && 5 * active_w < 4 * charger_w {
        Bottleneck::DeviceLimit
    } else if requested_w > 0 && 5 * requested_w < 4 * active_w {
        Bottleneck::SinkLimit
    } else {
        Bottleneck::Fine
    }
}

/// Headline for a bottleneck.
pub open spec fn diag_summary(b: Bottleneck, active_w: nat, requested_w: nat) -> Seq<char> {
    match b {
        Bottleneck::CableLimit => "Cable is limiting charging speed"@,
        Bottleneck::DeviceLimit => "Contract limited to "@ + dec_seq(active_w) + "W"@,
        Bottleneck::SinkLimit => "Device is limiting its draw to "@ + dec_seq(requested_w) + "W"@,
        _ => "Charging at up to "@ + dec_seq(active_w) + "W"@,
    }
}

/// Detail line for a bottleneck.
pub open spec fn diag_detail(
    b: Bottleneck,
    charger_w: nat,
    active_w: nat,
    cable_w: nat,
    requested_w: nat,
) -> Seq<char> {
    match b {
        Bottleneck::CableLimit => "Cable rated for "@ + dec_seq(cable_w) + "W, but charger can deliver "@
            + dec_seq(charger_w) + "W"@,
        Bottleneck::DeviceLimit => "Negotiated "@ + dec_seq(active_w) + "W of the "@ + dec_seq(
            charger_w,
        ) + "W the charger offers"@,
        Bottleneck::SinkLimit => "Contract allows "@ + dec_seq(active_w)
            + "W; the device requests up to "@ + dec_seq(requested_w)
            + "W — often a battery charge limit or thermal policy"@,
        _ => Seq::empty(),
    }
}

/// The diagnosis of a port for a cable rated `cable_w` watts (0 when
/// unknown) and a sink request of `requested_mw`: bottleneck, warning flag,
/// headline and detail; `None` without source PDOs or with a charger
/// maximum under 1 W. Only a cable limit is a warning.
pub open spec fn diagnosis(pd: PowerDeliveryPort, cable_w: nat, requested_mw: u32) -> Option<
    (Bottleneck, bool, Seq<char>, Seq<char>),
> {
    let charger_w = (pd.max_source_power_mw / 1000) as nat;
    if pd.source_capabilities@.len() == 0 || charger_w == 0 {
        None
    } else {
        let active_w = active_watts(pd.source_capabilities@, charger_w);
        let requested_w = (requested_mw / 1000) as nat;
        let b = bottleneck_of(charger_w, active_w, cable_w, requested_w);
        Some(
            (
                b,
                b == Bottleneck::CableLimit,
                diag_summary(b, active_w, requested_w),
                diag_detail(b, charger_w, active_w, cable_w, requested_w),
            ),
        )
    }
}

/// Owned text `prefix`, `n`, `suffix`.
fn number_text(prefix: &str, n: u32, suffix: &str) -> (r: String)
    ensures
        r@ == prefix@ + dec_seq(n as nat) + suffix@,
{
    let mut r = owned(prefix);
    push_str(&mut r, dec_string(n as u128).as_str());
    push_str(&mut r, suffix);
    r
}

impl ChargingDiagnostic {
    /// Diagnose `pd_port`, informed by the cable's rating and by the sink's
    /// requested operating power `requested_mw` (0 when unknown).
    ///
    /// `None` when the port advertises no source PDOs or a charger maximum
    /// under 1 W: there is no charger to compare against. The cable is the
    /// actionable fact and wins; a low contract comes next; a sink asking
    /// for less than 80% of a healthy contract is benign.
    pub fn evaluate(pd_port: &PowerDeliveryPort, cable: Option<&CableInfo>, requested_mw: u32) -> (r:
        Option<ChargingDiagnostic>)
        ensures
            match r {
                Some(d) => diagnosis(
                    *pd_port,
                    match cable {
                        Some(c) => c.max_watts as nat,
                        None => 0,
                    },
                    requested_mw,
                ) == Some((d.bottleneck, d.is_warning, d.summary@, d.detail@)),
                None => diagnosis(
                    *pd_port,
                    match cable {
                        Some(c) => c.max_watts as nat,
                        None => 0,
                    },
                    requested_mw,
                ) is None,
            },
    {
        if pd_port.source_capabilities.len() == 0 {
            return None;
        }
        let charger_max_w = pd_port.max_source_power_mw / 1000;
        if charger_max_w == 0 {
            return None;
        }
        let ghost caps = pd_port.source_capabilities@;
        let mut found: Option<u32> = None;
        let mut i: usize = 0;
        assert(caps.subrange(0, caps.len() as int) =~= caps);
        while i < pd_port.source_capabilities.len()
            invariant_except_break
                found is None,
            invariant
                caps == pd_port.source_capabilities@,
                i <= caps.len(),
                first_active(caps) == first_active(caps.subrange(i as int, caps.len() as int)),
            ensures
                match found {
                    Some(w) => first_active(caps) matches Some(p) && p.power_mw == w,
                    None => first_active(caps) is None,
                },
            decreases caps.len() - i,
        {
            assert(caps.subrange(i as int, caps.len() as int).drop_first() =~= caps.subrange(
                i + 1,
                caps.len() as int,
            ));
            if pd_port.source_capabilities[i].is_active {
                found = Some(pd_port.source_capabilities[i].power_mw);
                break;
            }
            i = i + 1;
        }
        let active_w: u32 = match found {
            Some(mw) => if mw / 1000 > 0 {
                mw / 1000
            } else {
                charger_max_w
            },
            None => charger_max_w,
        };
        assert(active_w as nat == active_watts(caps, charger_max_w as nat));
        let cable_max_w: u32 = match cable {
            Some(c) => c.max_watts,
            None => 0,
        };
        let requested_w = requested_mw / 1000;
        proof {
            reveal_strlit("Cable is limiting charging speed");
        }
        if cable_max_w > 0 && cable_max_w < charger_max_w {
            let mut detail = number_text("Cable rated for ", cable_max_w, "W, but charger can deliver ");
            push_str(&mut detail, number_text("", charger_max_w, "W").as_str());
            proof {
                reveal_strlit("");
            }
            Some(
                ChargingDiagnostic {
                    bottleneck: Bottleneck::CableLimit,
                    summary: owned("Cable is limiting charging speed"),
                    detail,
                    is_warning: true,
                },
            )
        } else if active_w > 0 && (active_w as u64) * 5 < (charger_max_w as u64) * 4 {
            let mut detail = number_text("Negotiated ", active_w, "W of the ");
            push_str(&mut detail, number_text("", charger_max_w, "W the charger offers").as_str());
            proof {
                reveal_strlit("");
            }
            Some(
                ChargingDiagnostic {
                    bottleneck: Bottleneck::DeviceLimit,
                    summary: number_text("Contract limited to ", active_w, "W"),
                    detail,
                    is_warning: false,
                },
            )
        } else if requested_w > 0 && (requested_w as u64) * 5 < (active_w as u64) * 4 {
            let mut detail = number_text("Contract allows ", active_w, "W; the device requests up to ");
            push_str(
                &mut detail,
                number_text("", requested_w, "W — often a battery charge limit or thermal policy").as_str(),
            );
            proof {
                reveal_strlit("");
            }
            Some(
                ChargingDiagnostic {
                    bottleneck: Bottleneck::SinkLimit,
                    summary: number_text("Device is limiting its draw to ", requested_w, "W"),
                    detail,
                    is_warning: false,
                },
            )
        } else {
            Some(
                ChargingDiagnostic {
                    bottleneck: Bottleneck::Fine,
                    summary: number_text("Charging at up to ", active_w, "W"),
                    detail: String::new(),
                    is_warning: false,
                },
            )
        }
    }
}

} // verus!

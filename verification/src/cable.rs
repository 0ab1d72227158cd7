//! Decoded cable e-marker information: the bridge from a raw [`TypeCCable`]
//! to a typed cable view, through the VDO decoders of [`crate::pd`].

use vstd::prelude::*;
use std::collections::BTreeMap;
use crate::pd::{
    cable_vdo_of, cable_vdo_reserved_bits_set, decode_cable_vdo, decode_id_header, id_header_of,
    reserved_bits_set, CableCurrent, CableSpeed, ProductType,
};
use crate::text::{owned, str_eq};
use crate::typec::TypeCCable;
use crate::vendor::{hex_fallback, is_hex_fallback, lookup, vendor_text};

verus! {

broadcast use vstd::string::group_string_axioms;

/// Cable trust signals: heuristics that hint at a counterfeit or buggy
/// e-marker. None is conclusive.
#[derive(Debug, Clone, Copy, Default, PartialEq, Eq, Structural)]
pub struct CableTrust {
    /// The ID Header reports vendor ID zero.
    pub zero_vid: bool,
    /// The vendor ID is non-zero but not in the bundled vendor table.
    pub vid_unknown: bool,
    /// The Cable VDO sets reserved bits.
    pub reserved_bits_set: bool,
}

impl CableTrust {
    /// `true` when any of the heuristics fires.
    pub fn any(&self) -> (r: bool)
        ensures
            r == (self.zero_vid || self.vid_unknown || self.reserved_bits_set),
    {
        self.zero_vid || self.vid_unknown || self.reserved_bits_set
    }
}

/// Decoded view of a cable's e-marker.
#[derive(Debug)]
pub struct CableInfo {
    /// The cable is electrically active.
    pub is_active: bool,
    /// The cable is passive.
    pub is_passive: bool,
    /// Raw `type` string (`"active"` / `"passive"`).
    pub cable_type: String,
    /// Raw `plug_type` string.
    pub plug_type: String,
    /// Decoded link speed, when a Cable VDO is present.
    pub speed: Option<CableSpeed>,
    /// Decoded VBUS current rating.
    pub current_rating: Option<CableCurrent>,
    /// Rated current × maximum VBUS voltage, in watts.
    pub max_watts: u32,
    /// Cable vendor ID.
    pub vendor_id: u16,
    /// Vendor name (or hex fallback) for `vendor_id`.
    pub vendor_name: String,
    /// Trust signals.
    pub trust: CableTrust,
    /// Raw sysfs attributes.
    pub raw_attributes: BTreeMap<String, String>,
}

impl Clone for CableInfo {
    /// A copy of the decoded cable, raw attributes included.
    fn clone(&self) -> (r: Self)
        ensures
            r@ == self@,
            r.raw_attributes@ == self.raw_attributes@,
    {
        CableInfo {
            is_active: self.is_active,
            is_passive: self.is_passive,
            cable_type: self.cable_type.clone(),
            plug_type: self.plug_type.clone(),
            speed: self.speed,
            current_rating: self.current_rating,
            max_watts: self.max_watts,
            vendor_id: self.vendor_id,
            vendor_name: self.vendor_name.clone(),
            trust: self.trust,
            raw_attributes: self.raw_attributes.clone(),
        }
    }
}

impl Default for CableInfo {
    fn default() -> (r: Self)
        ensures
            !r.is_active,
            !r.is_passive,
            r.cable_type@ == Seq::<char>::empty(),
            r.plug_type@ == Seq::<char>::empty(),
            r.speed is None,
            r.current_rating is None,
            r.max_watts == 0,
            r.vendor_id == 0,
            r.vendor_name@ == Seq::<char>::empty(),
            r.trust == (CableTrust { zero_vid: false, vid_unknown: false, reserved_bits_set: false }),
            r.raw_attributes@ == Map::<String, String>::empty(),
    {
        CableInfo {
            is_active: false,
            is_passive: false,
            cable_type: String::new(),
            plug_type: String::new(),
            speed: None,
            current_rating: None,
            max_watts: 0,
            vendor_id: 0,
            vendor_name: String::new(),
            trust: CableTrust { zero_vid: false, vid_unknown: false, reserved_bits_set: false },
            raw_attributes: BTreeMap::new(),
        }
    }
}

/// Model of a [`CableInfo`], its raw attributes aside.
pub ghost struct CableView {
    pub is_active: bool,
    pub is_passive: bool,
    pub cable_type: Seq<char>,
    pub plug_type: Seq<char>,
    pub speed: Option<CableSpeed>,
    pub current_rating: Option<CableCurrent>,
    pub max_watts: u32,
    pub vendor_id: u16,
    pub vendor_name: Seq<char>,
    pub trust: CableTrust,
}

impl View for CableInfo {
    type V = CableView;

    open spec fn view(&self) -> CableView {
        CableView {
            is_active: self.is_active,
            is_passive: self.is_passive,
            cable_type: self.cable_type@,
            plug_type: self.plug_type@,
            speed: self.speed,
            current_rating: self.current_rating,
            max_watts: self.max_watts,
            vendor_id: self.vendor_id,
            vendor_name: self.vendor_name@,
            trust: self.trust,
        }
    }
}

/// The cable view decoded from a cable's `type`, `plug_type` and identity
/// (vendor ID and VDOs). The `type` string sets the active / passive flags
/// unless a Cable VDO (the fourth VDO) is present, which then decides them,
/// read as an active cable when the ID Header's UFP product type says so.
pub open spec fn decoded_cable(
    cable_type: Seq<char>,
    plug_type: Seq<char>,
    identity: Option<(u16, Seq<u32>)>,
) -> CableView {
    let base = CableView {
        is_active: cable_type == "active"@,
        is_passive: cable_type == "passive"@,
        cable_type,
        plug_type,
        speed: None,
        current_rating: None,
        max_watts: 0,
        vendor_id: 0,
        vendor_name: Seq::empty(),
        trust: CableTrust { zero_vid: false, vid_unknown: false, reserved_bits_set: false },
    };
    match identity {
        None => base,
        Some((vid, vdos)) => {
            let name = vendor_text(vid);
            let named = CableView {
                vendor_id: vid,
                vendor_name: name,
                trust: CableTrust {
                    zero_vid: vid == 0,
                    vid_unknown: vid != 0 && hex_fallback(name),
                    reserved_bits_set: false,
                },
                ..base
            };
            if vdos.len() >= 4 {
                let active = id_header_of(vdos[0]).ufp_product_type == Some(ProductType::ActiveCable);
                let v = cable_vdo_of(vdos[3], active);
                CableView {
                    speed: Some(v.speed),
                    current_rating: Some(v.current_rating),
                    max_watts: v.max_watts,
                    is_active: v.is_active,
                    is_passive: !v.is_active,
                    trust: CableTrust {
                        reserved_bits_set: reserved_bits_set(vdos[3], active),
                        ..named.trust
                    },
                    ..named
                }
            } else {
                named
            }
        },
    }
}

impl CableInfo {
    /// Decode a [`TypeCCable`] snapshot. A Cable VDO, when present, is more
    /// authoritative than the kernel `type` string for the active flag.
    pub fn from_typec_cable(cable: &TypeCCable) -> (r: CableInfo)
        ensures
            r@ == decoded_cable(
                cable.cable_type@,
                cable.plug_type@,
                match cable.identity {
                    Some(id) => Some((id.vendor_id, id.vdos@)),
                    None => None,
                },
            ),
            r.raw_attributes@ == cable.raw_attributes@,
    {
        proof {
            reveal_strlit("active");
            reveal_strlit("passive");
        }
        let mut info = CableInfo {
            is_active: str_eq(cable.cable_type.as_str(), "active"),
            is_passive: str_eq(cable.cable_type.as_str(), "passive"),
            cable_type: cable.cable_type.clone(),
            plug_type: cable.plug_type.clone(),
            speed: None,
            current_rating: None,
            max_watts: 0,
            vendor_id: 0,
            vendor_name: String::new(),
            trust: CableTrust { zero_vid: false, vid_unknown: false, reserved_bits_set: false },
            raw_attributes: cable.raw_attributes.clone(),
        };
        let id = match &cable.identity {
            Some(id) => id,
            None => {
                return info;
            },
        };
        info.vendor_id = id.vendor_id;
        info.vendor_name = lookup(id.vendor_id);
        info.trust.zero_vid = id.vendor_id == 0;
        info.trust.vid_unknown = id.vendor_id != 0 && is_hex_fallback(info.vendor_name.as_str());
        if id.vdos.len() < 4 {
            return info;
        }
        let hdr = decode_id_header(id.vdos[0]);
        let active = hdr.ufp_product_type == Some(ProductType::ActiveCable);
        let fourth = id.vdos[3];
        let v = decode_cable_vdo(fourth, active);
        info.speed = Some(v.speed);
        info.current_rating = Some(v.current_rating);
        info.max_watts = v.max_watts;
        info.is_active = v.is_active;
        info.is_passive = !v.is_active;
        info.trust.reserved_bits_set = cable_vdo_reserved_bits_set(fourth, active);
        info
    }
}

} // verus!

//! The JSON view of a summary: a JSON value type of the library's own, its
//! model, and the object that `--json` prints for each summary.

use vstd::prelude::*;
use std::collections::BTreeMap;
use crate::cable::CableInfo;
use crate::dbus::{
    category_name, class_name_text, class_variant_name, role_name, role_text, status_name,
    status_text,
};
use crate::diagnostic::ChargingDiagnostic;
use crate::pd::{cable_current_label, cable_current_text, cable_speed_label, cable_speed_text};
use crate::power::{pdo_type_text, PowerDataObject, PowerDeliveryPort};
use crate::summary::{props_view, Category, DeviceSummary, PowerSummary};
use crate::text::{
    hex_pad, hex_padded, lemma_text_lt_irreflexive, lemma_text_lt_transitive, owned, push_str,
    text_lt,
};
use crate::typec::{bracketed_text, negotiated_mw, TypeCPort, TypeCPowerSupply};
use crate::usb::{link_speed_text, tier_of, UsbDevice, UsbInterface};
use crate::usbclass::{class_name, class_text};

verus! {

broadcast use vstd::string::group_string_axioms;

/// A JSON value. Objects keep their members in the order they were added.
#[derive(Debug, PartialEq, Eq)]
pub enum JsonValue {
    Null,
    Bool(bool),
    Int(i64),
    UInt(u64),
    Str(String),
    Array(Vec<JsonValue>),
    Object(Vec<(String, JsonValue)>),
}

/// Model of a [`JsonValue`]: numbers are integers, text is characters.
pub ghost enum JsonView {
    Null,
    Bool(bool),
    Num(int),
    Str(Seq<char>),
    Array(Seq<JsonView>),
    Object(Seq<(Seq<char>, JsonView)>),
}

/// The model of `v`.
pub open spec fn json_view(v: JsonValue) -> JsonView
    decreases v, 0nat,
{
    match v {
        JsonValue::Null => JsonView::Null,
        JsonValue::Bool(b) => JsonView::Bool(b),
        JsonValue::Int(i) => JsonView::Num(i as int),
        JsonValue::UInt(u) => JsonView::Num(u as int),
        JsonValue::Str(s) => JsonView::Str(s@),
        JsonValue::Array(items) => {
            proof {
                assert(decreases_to!(v => items));
                assert(decreases_to!(items => items@));
            }
            JsonView::Array(json_views(items@))
        },
        JsonValue::Object(members) => {
            proof {
                assert(decreases_to!(v => members));
                assert(decreases_to!(members => members@));
            }
            JsonView::Object(json_members(members@))
        },
    }
}

/// The models of the values `s`, in order.
pub open spec fn json_views(s: Seq<JsonValue>) -> Seq<JsonView>
    decreases s, 0nat,
{
    if s.len() == 0 {
        Seq::empty()
    } else {
        json_views(s.drop_last()).push(json_view(s.last()))
    }
}

/// The models of the members `s`, in order.
pub open spec fn json_members(s: Seq<(String, JsonValue)>) -> Seq<(Seq<char>, JsonView)>
    decreases s, 0nat,
{
    if s.len() == 0 {
        Seq::empty()
    } else {
        proof {
            assert(decreases_to!(s => s.last()));
            assert(decreases_to!(s.last() => s.last().1));
        }
        json_members(s.drop_last()).push((s.last().0@, json_view(s.last().1)))
    }
}

impl View for JsonValue {
    type V = JsonView;

    open spec fn view(&self) -> JsonView {
        json_view(*self)
    }
}

/// A string value.
pub fn json_str(s: &str) -> (r: JsonValue)
    ensures
        r@ == JsonView::Str(s@),
{
    JsonValue::Str(owned(s))
}

/// Append the member `key: v` to `members`.
pub fn add_member(members: &mut Vec<(String, JsonValue)>, key: &str, v: JsonValue)
    ensures
        json_members(final(members)@) == json_members(old(members)@).push((key@, v@)),
{
    let ghost before = members@;
    members.push((owned(key), v));
    assert(members@.drop_last() =~= before);
}

/// Append `v` to `items`.
pub fn add_item(items: &mut Vec<JsonValue>, v: JsonValue)
    ensures
        json_views(final(items)@) == json_views(old(items)@).push(v@),
{
    let ghost before = items@;
    items.push(v);
    assert(items@.drop_last() =~= before);
}

/// A number.
pub open spec fn jnum(n: int) -> JsonView {
    JsonView::Num(n)
}

/// A string.
pub open spec fn jstr(s: Seq<char>) -> JsonView {
    JsonView::Str(s)
}

/// An identifier as `0x` and four lower-case hex digits.
pub open spec fn hex_id(v: u16) -> Seq<char> {
    "0x"@ + hex_pad(v as nat, 4)
}

/// The text pairs of a list of string pairs.
pub open spec fn entry_views(s: Seq<(String, String)>) -> Seq<(Seq<char>, Seq<char>)> {
    s.map_values(|e: (String, String)| (e.0@, e.1@))
}

/// The pair `e` is the text of an entry of `m`.
#[verifier::opaque]
pub open spec fn entry_of(m: Map<String, String>, e: (Seq<char>, Seq<char>)) -> bool {
    exists|k: String| m.contains_key(k) && k@ == e.0 && m[k]@ == e.1
}

/// The entry of `m` under `k` appears in `s` as text.
#[verifier::opaque]
pub open spec fn key_listed(s: Seq<(Seq<char>, Seq<char>)>, m: Map<String, String>, k: String) -> bool {
    exists|i: int| 0 <= i < s.len() && s[i].0 == k@ && s[i].1 == m[k]@
}

/// `s` lists the entries of `m`, each once, in increasing key order.
pub open spec fn sorted_listing(s: Seq<(Seq<char>, Seq<char>)>, m: Map<String, String>) -> bool {
    &&& forall|i: int| 0 <= i < s.len() ==> entry_of(m, #[trigger] s[i])
    &&& forall|k: String| #[trigger] m.contains_key(k) ==> key_listed(s, m, k)
    &&& forall|i: int, j: int| 0 <= i < j < s.len() ==> text_lt(s[i].0, s[j].0)
}

/// The listing of `m`'s entries in increasing key order (see
/// [`sorted_listing`]; there is at most one).
pub open spec fn listing_of(m: Map<String, String>) -> Seq<(Seq<char>, Seq<char>)> {
    choose|s: Seq<(Seq<char>, Seq<char>)>| sorted_listing(s, m)
}

/// Pairs in strictly increasing order of their first text.
pub open spec fn strictly_sorted(s: Seq<(Seq<char>, Seq<char>)>) -> bool {
    forall|i: int, j: int| 0 <= i < j < s.len() ==> text_lt(s[i].0, s[j].0)
}

proof fn lemma_sorted_same_elements(a: Seq<(Seq<char>, Seq<char>)>, b: Seq<(Seq<char>, Seq<char>)>)
    requires
        strictly_sorted(a),
        strictly_sorted(b),
        forall|e: (Seq<char>, Seq<char>)| a.contains(e) <==> b.contains(e),
    ensures
        a == b,
    decreases a.len(),
{
    if a.len() == 0 {
        if b.len() > 0 {
            assert(b.contains(b[0]));
        }
        assert(a =~= b);
    } else {
        assert(a.contains(a[0]));
        let j = choose|j: int| 0 <= j < b.len() && b[j] == a[0];
        assert(b.contains(b[0]));
        let k = choose|k: int| 0 <= k < a.len() && a[k] == b[0];
        if j > 0 && k > 0 {
            assert(text_lt(b[0].0, b[j].0));
            assert(text_lt(a[0].0, a[k].0));
            lemma_text_lt_transitive(a[0].0, b[0].0, a[0].0);
            lemma_text_lt_irreflexive(a[0].0);
        }
        assert(a[0] == b[0]);
        let (ra, rb) = (a.drop_first(), b.drop_first());
        assert forall|e: (Seq<char>, Seq<char>)| ra.contains(e) <==> rb.contains(e) by {
            if ra.contains(e) {
                let i = choose|i: int| 0 <= i < ra.len() && ra[i] == e;
                assert(a[i + 1] == e);
                assert(text_lt(a[0].0, e.0));
                lemma_text_lt_irreflexive(e.0);
                assert(a.contains(e));
                let i2 = choose|i2: int| 0 <= i2 < b.len() && b[i2] == e;
                assert(i2 != 0);
                assert(rb[i2 - 1] == e);
            }
            if rb.contains(e) {
                let i = choose|i: int| 0 <= i < rb.len() && rb[i] == e;
                assert(b[i + 1] == e);
                assert(text_lt(b[0].0, e.0));
                lemma_text_lt_irreflexive(e.0);
                assert(b.contains(e));
                let i2 = choose|i2: int| 0 <= i2 < a.len() && a[i2] == e;
                assert(i2 != 0);
                assert(ra[i2 - 1] == e);
            }
        }
        assert(strictly_sorted(ra)) by {
            assert forall|i: int, j: int| 0 <= i < j < ra.len() implies text_lt(ra[i].0, ra[j].0) by {
                assert(ra[i] == a[i + 1] && ra[j] == a[j + 1]);
            }
        }
        assert(strictly_sorted(rb)) by {
            assert forall|i: int, j: int| 0 <= i < j < rb.len() implies text_lt(rb[i].0, rb[j].0) by {
                assert(rb[i] == b[i + 1] && rb[j] == b[j + 1]);
            }
        }
        lemma_sorted_same_elements(ra, rb);
        assert(a =~= b) by {
            assert forall|i: int| 0 <= i < a.len() implies a[i] == b[i] by {
                if i > 0 {
                    assert(a[i] == ra[i - 1] && b[i] == rb[i - 1]);
                }
            }
        }
    }
}

proof fn lemma_listed_in_both(
    s: Seq<(Seq<char>, Seq<char>)>,
    t: Seq<(Seq<char>, Seq<char>)>,
    m: Map<String, String>,
    e: (Seq<char>, Seq<char>),
)
    requires
        sorted_listing(s, m),
        sorted_listing(t, m),
        s.contains(e),
    ensures
        t.contains(e),
{
    let i = choose|i: int| 0 <= i < s.len() && s[i] == e;
    assert(entry_of(m, s[i]));
    reveal(entry_of);
    let k = choose|k: String| m.contains_key(k) && k@ == s[i].0 && m[k]@ == s[i].1;
    assert(key_listed(t, m, k));
    reveal(key_listed);
    let i2 = choose|i2: int| 0 <= i2 < t.len() && t[i2].0 == k@ && t[i2].1 == m[k]@;
    assert(t[i2] == e);
}

/// A map has at most one listing in key order.
proof fn lemma_listing_unique(s: Seq<(Seq<char>, Seq<char>)>, m: Map<String, String>)
    requires
        sorted_listing(s, m),
    ensures
        listing_of(m) == s,
{
    let t = listing_of(m);
    assert(sorted_listing(t, m));
    assert forall|e: (Seq<char>, Seq<char>)| s.contains(e) <==> t.contains(e) by {
        if s.contains(e) {
            lemma_listed_in_both(s, t, m, e);
        }
        if t.contains(e) {
            lemma_listed_in_both(t, s, m, e);
        }
    }
    assert(strictly_sorted(s));
    assert(strictly_sorted(t));
    lemma_sorted_same_elements(s, t);
}

/// A raw attribute listing as an object of strings.
pub open spec fn raw_view(s: Seq<(Seq<char>, Seq<char>)>) -> JsonView {
    JsonView::Object(s.map_values(|e: (Seq<char>, Seq<char>)| (e.0, jstr(e.1))))
}

/// Category as the JSON names it.
pub open spec fn category_json(c: Category) -> Seq<char> {
    match c {
        Category::TypeCPort => "typec"@,
        Category::Hub => "hub"@,
        Category::UsbDevice => "usb"@,
    }
}

/// The `power` object.
pub open spec fn power_view(p: PowerSummary) -> JsonView {
    JsonView::Object(
        seq![
            ("powerInMW"@, jnum(p.power_in_mw as int)),
            ("powerOutMW"@, jnum(p.power_out_mw as int)),
            ("contractMW"@, jnum(p.contract_mw as int)),
            ("powerRole"@, jstr(role_text(p.power_role))),
        ],
    )
}

/// The `properties` array: one `[key, value]` pair per property.
pub open spec fn props_json(ps: Seq<(Seq<char>, Seq<char>)>) -> JsonView {
    JsonView::Array(
        ps.map_values(|p: (Seq<char>, Seq<char>)| JsonView::Array(seq![jstr(p.0), jstr(p.1)])),
    )
}

/// One interface of the `usb` object.
pub open spec fn interface_view(i: UsbInterface) -> JsonView {
    JsonView::Object(seq![("class"@, jstr(class_text(i.class_code))), ("driver"@, jstr(i.driver@))])
}

/// A raw listing as a member, when there is one.
pub open spec fn raw_member(raw: Option<Seq<(Seq<char>, Seq<char>)>>) -> Seq<(Seq<char>, JsonView)> {
    match raw {
        Some(r) => seq![("raw"@, raw_view(r))],
        None => Seq::empty(),
    }
}

/// The `usb` object of a device, with its raw listing when one is given.
pub open spec fn usb_view(u: UsbDevice, raw: Option<Seq<(Seq<char>, Seq<char>)>>) -> JsonView {
    JsonView::Object(
        seq![
            ("vendorId"@, jstr(hex_id(u.vendor_id))),
            ("productId"@, jstr(hex_id(u.product_id))),
            ("manufacturer"@, jstr(u.manufacturer@)),
            ("product"@, jstr(u.product@)),
            ("speed"@, jnum(u.speed as int)),
            ("speedLabel"@, jstr(link_speed_text(tier_of(u.speed)))),
            ("version"@, jstr(u.version@)),
            ("maxPowerMA"@, jnum(u.max_power_ma as int)),
            ("serial"@, jstr(u.serial@)),
            ("removable"@, jstr(u.removable@)),
            ("bus"@, jnum(u.bus_num as int)),
            ("device"@, jnum(u.dev_num as int)),
            ("isHub"@, JsonView::Bool(u.is_hub)),
            ("interfaces"@, JsonView::Array(u.interfaces@.map_values(|i: UsbInterface| interface_view(i)))),
        ] + raw_member(raw),
    )
}

/// A reading as a member, when present.
pub open spec fn reading(key: Seq<char>, v: Option<i64>) -> Seq<(Seq<char>, JsonView)> {
    match v {
        Some(x) => seq![(key, jnum(x as int))],
        None => Seq::empty(),
    }
}

/// The `powerSupply` object: the readings present, and the negotiated
/// power when both live readings are positive.
pub open spec fn supply_view(p: TypeCPowerSupply) -> JsonView {
    JsonView::Object(
        seq![("name"@, jstr(p.name@)), ("online"@, JsonView::Bool(p.online))] + reading(
            "voltageNowUV"@,
            p.voltage_now_uv,
        ) + reading("currentNowUA"@, p.current_now_ua) + reading("currentMaxUA"@, p.current_max_ua)
            + reading("voltageMinUV"@, p.voltage_min_uv) + reading("voltageMaxUV"@, p.voltage_max_uv)
            + reading("negotiatedPowerMW"@, negotiated_mw(p.voltage_now_uv, p.current_now_ua))
            + seq![("chargeType"@, jstr(p.charge_type@)), ("usbType"@, jstr(p.usb_type@))],
    )
}

/// The `typec` object of a port, with its raw listing when one is given.
pub open spec fn typec_view(tc: TypeCPort, raw: Option<Seq<(Seq<char>, Seq<char>)>>) -> JsonView {
    JsonView::Object(
        seq![
            ("port"@, jnum(tc.port_number as int)),
            ("dataRole"@, jstr(bracketed_text(tc.data_role@))),
            ("powerRole"@, jstr(bracketed_text(tc.power_role@))),
            ("portType"@, jstr(tc.port_type@)),
            ("powerOpMode"@, jstr(tc.power_op_mode@)),
            ("connected"@, JsonView::Bool(tc.partner is Some || tc.cable is Some)),
        ] + match tc.power_supply {
            Some(p) => seq![("powerSupply"@, supply_view(p))],
            None => Seq::empty(),
        } + raw_member(raw),
    )
}

/// The `cable` object.
pub open spec fn cable_view(c: CableInfo) -> JsonView {
    JsonView::Object(
        seq![
            ("type"@, jstr(c.cable_type@)),
            ("maxWatts"@, jnum(c.max_watts as int)),
            ("vendorId"@, jstr(hex_id(c.vendor_id))),
            ("vendorName"@, jstr(c.vendor_name@)),
        ] + match c.speed {
            Some(sp) => seq![("speed"@, jstr(cable_speed_text(sp)))],
            None => Seq::empty(),
        } + match c.current_rating {
            Some(cu) => seq![("current"@, jstr(cable_current_text(cu)))],
            None => Seq::empty(),
        },
    )
}

/// One source PDO.
pub open spec fn pdo_view(p: PowerDataObject) -> JsonView {
    JsonView::Object(
        seq![
            ("type"@, jstr(pdo_type_text(p.pdo_type))),
            ("voltageMV"@, jnum(p.voltage_mv as int)),
            ("currentMA"@, jnum(p.current_ma as int)),
            ("powerMW"@, jnum(p.power_mw as int)),
            ("active"@, JsonView::Bool(p.is_active)),
        ],
    )
}

/// The `powerDelivery` object: the source PDOs and the charger maximum.
pub open spec fn pd_view(pd: PowerDeliveryPort) -> JsonView {
    JsonView::Object(
        seq![
            (
                "sourceCapabilities"@,
                JsonView::Array(pd.source_capabilities@.map_values(|p: PowerDataObject| pdo_view(p))),
            ),
            ("maxPowerMW"@, jnum(pd.max_source_power_mw as int)),
        ],
    )
}

/// The `charging` object.
pub open spec fn diag_view(d: ChargingDiagnostic) -> JsonView {
    JsonView::Object(
        seq![
            ("summary"@, jstr(d.summary@)),
            ("detail"@, jstr(d.detail@)),
            ("isWarning"@, JsonView::Bool(d.is_warning)),
        ],
    )
}

/// The raw attribute listing of `m` when `show_raw` asks for it.
pub open spec fn raw_of(m: Map<String, String>, show_raw: bool) -> Option<
    Seq<(Seq<char>, Seq<char>)>,
> {
    if show_raw {
        Some(listing_of(m))
    } else {
        None
    }
}

/// The JSON object of a summary: its own fields, then `usb`, `typec`,
/// `cable`, `powerDelivery` and `charging` for the parts it carries; the
/// raw attributes of the USB device and of the port, in key order, when
/// `show_raw` holds.
pub open spec fn device_json_view(dev: DeviceSummary, show_raw: bool) -> JsonView {
    JsonView::Object(
        seq![
            ("category"@, jstr(category_json(dev.category))),
            ("deviceClass"@, jstr(class_name_text(dev.device_class))),
            ("deviceSubclass"@, jstr(dev.device_subclass@)),
            ("status"@, jstr(status_text(dev.status))),
            ("headline"@, jstr(dev.headline@)),
            ("subtitle"@, jstr(dev.subtitle@)),
            ("icon"@, jstr(dev.icon@)),
            ("vendor"@, jstr(dev.vendor@)),
            ("product"@, jstr(dev.product@)),
            ("vendorId"@, jstr(hex_id(dev.vendor_id))),
            ("productId"@, jstr(hex_id(dev.product_id))),
            ("primaryDriver"@, jstr(dev.primary_driver@)),
            ("linkSpeedMbps"@, jnum(dev.link_speed_mbps as int)),
            ("usbVersion"@, jstr(dev.usb_version@)),
            ("power"@, power_view(dev.power)),
            ("properties"@, props_json(props_view(dev.properties@))),
        ] + match dev.usb_device {
            Some(u) => seq![("usb"@, usb_view(u, raw_of(u.raw_attributes@, show_raw)))],
            None => Seq::empty(),
        } + match dev.typec_port {
            Some(tc) => seq![("typec"@, typec_view(tc, raw_of(tc.raw_attributes@, show_raw)))],
            None => Seq::empty(),
        } + match dev.cable {
            Some(c) => seq![("cable"@, cable_view(c))],
            None => Seq::empty(),
        } + match dev.power_delivery {
            Some(pd) => seq![("powerDelivery"@, pd_view(pd))],
            None => Seq::empty(),
        } + match dev.charging_diag {
            Some(d) => seq![("charging"@, diag_view(d))],
            None => Seq::empty(),
        },
    )
}

/// `std::collections::BTreeMap::iter` on a map of strings, each entry copied
/// out as a pair. std documents the iterator as visiting every entry of the
/// map once, in increasing key order; `String` orders by its UTF-8 bytes,
/// which is code-point order.
#[verifier::external_body]
fn sorted_entries(m: &BTreeMap<String, String>) -> (r: Vec<(String, String)>)
    ensures
        sorted_listing(entry_views(r@), m@),
{
    m.iter().map(|(k, v)| (k.clone(), v.clone())).collect()
}

/// The object of a map's raw attributes, in key order.
fn raw_json(m: &BTreeMap<String, String>) -> (r: JsonValue)
    ensures
        r@ == raw_view(listing_of(m@)),
{
    let entries = sorted_entries(m);
    let ghost ev = entry_views(entries@);
    let mut members: Vec<(String, JsonValue)> = Vec::new();
    let mut i: usize = 0;
    while i < entries.len()
        invariant
            i <= entries@.len(),
            ev == entry_views(entries@),
            json_members(members@) == ev.take(i as int).map_values(
                |e: (Seq<char>, Seq<char>)| (e.0, jstr(e.1)),
            ),
        decreases entries@.len() - i,
    {
        add_member(&mut members, entries[i].0.as_str(), json_str(entries[i].1.as_str()));
        assert(ev.take(i + 1).map_values(|e: (Seq<char>, Seq<char>)| (e.0, jstr(e.1))) =~= ev.take(
            i as int,
        ).map_values(|e: (Seq<char>, Seq<char>)| (e.0, jstr(e.1))).push((ev[i as int].0, jstr(ev[i as int].1))));
        i = i + 1;
    }
    assert(ev.take(i as int) =~= ev);
    proof {
        lemma_listing_unique(ev, m@);
    }
    JsonValue::Object(members)
}

/// `0x` and four lower-case hex digits.
fn hex_id_string(v: u16) -> (r: String)
    ensures
        r@ == hex_id(v),
{
    let mut r = owned("0x");
    push_str(&mut r, hex_padded(v as u64, 4).as_str());
    r
}

fn category_json_name(c: Category) -> (r: &'static str)
    ensures
        r@ == category_json(c),
{
    match c {
        Category::TypeCPort => "typec",
        Category::Hub => "hub",
        Category::UsbDevice => "usb",
    }
}

fn power_json(p: &PowerSummary) -> (r: JsonValue)
    ensures
        r@ == power_view(*p),
{
    let mut m: Vec<(String, JsonValue)> = Vec::new();
    add_member(&mut m, "powerInMW", JsonValue::UInt(p.power_in_mw as u64));
    add_member(&mut m, "powerOutMW", JsonValue::UInt(p.power_out_mw as u64));
    add_member(&mut m, "contractMW", JsonValue::UInt(p.contract_mw as u64));
    add_member(&mut m, "powerRole", json_str(role_name(p.power_role)));
    proof {
        assert(json_members(m@) =~= seq![
            ("powerInMW"@, jnum(p.power_in_mw as int)),
            ("powerOutMW"@, jnum(p.power_out_mw as int)),
            ("contractMW"@, jnum(p.contract_mw as int)),
            ("powerRole"@, jstr(role_text(p.power_role))),
        ]);
    }
    JsonValue::Object(m)
}

fn props_json_value(ps: &Vec<(String, String)>) -> (r: JsonValue)
    ensures
        r@ == props_json(props_view(ps@)),
{
    let ghost pv = props_view(ps@);
    let mut items: Vec<JsonValue> = Vec::new();
    let mut i: usize = 0;
    while i < ps.len()
        invariant
            i <= ps@.len(),
            pv == props_view(ps@),
            json_views(items@) == pv.take(i as int).map_values(
                |p: (Seq<char>, Seq<char>)| JsonView::Array(seq![jstr(p.0), jstr(p.1)]),
            ),
        decreases ps@.len() - i,
    {
        let mut pair: Vec<JsonValue> = Vec::new();
        add_item(&mut pair, json_str(ps[i].0.as_str()));
        add_item(&mut pair, json_str(ps[i].1.as_str()));
        assert(json_views(pair@) =~= seq![jstr(pv[i as int].0), jstr(pv[i as int].1)]);
        add_item(&mut items, JsonValue::Array(pair));
        assert(pv.take(i + 1).map_values(
            |p: (Seq<char>, Seq<char>)| JsonView::Array(seq![jstr(p.0), jstr(p.1)]),
        ) =~= pv.take(i as int).map_values(
            |p: (Seq<char>, Seq<char>)| JsonView::Array(seq![jstr(p.0), jstr(p.1)]),
        ).push(JsonView::Array(seq![jstr(pv[i as int].0), jstr(pv[i as int].1)])));
        i = i + 1;
    }
    assert(pv.take(i as int) =~= pv);
    JsonValue::Array(items)
}

fn interface_json(i: &UsbInterface) -> (r: JsonValue)
    ensures
        r@ == interface_view(*i),
{
    let mut m: Vec<(String, JsonValue)> = Vec::new();
    add_member(&mut m, "class", JsonValue::Str(class_name(i.class_code)));
    add_member(&mut m, "driver", json_str(i.driver.as_str()));
    assert(json_members(m@) =~= seq![("class"@, jstr(class_text(i.class_code))), ("driver"@, jstr(i.driver@))]);
    JsonValue::Object(m)
}

fn interfaces_json(v: &Vec<UsbInterface>) -> (r: JsonValue)
    ensures
        r@ == JsonView::Array(v@.map_values(|i: UsbInterface| interface_view(i))),
{
    let mut items: Vec<JsonValue> = Vec::new();
    let mut i: usize = 0;
    while i < v.len()
        invariant
            i <= v@.len(),
            json_views(items@) == v@.take(i as int).map_values(|i: UsbInterface| interface_view(i)),
        decreases v@.len() - i,
    {
        add_item(&mut items, interface_json(&v[i]));
        assert(v@.take(i + 1).map_values(|i: UsbInterface| interface_view(i)) =~= v@.take(
            i as int,
        ).map_values(|i: UsbInterface| interface_view(i)).push(interface_view(v@[i as int])));
        i = i + 1;
    }
    assert(v@.take(i as int) =~= v@);
    JsonValue::Array(items)
}

fn usb_json(u: &UsbDevice, show_raw: bool) -> (r: JsonValue)
    ensures
        r@ == usb_view(*u, raw_of(u.raw_attributes@, show_raw)),
{
    let mut m: Vec<(String, JsonValue)> = Vec::new();
    add_member(&mut m, "vendorId", JsonValue::Str(hex_id_string(u.vendor_id)));
    add_member(&mut m, "productId", JsonValue::Str(hex_id_string(u.product_id)));
    add_member(&mut m, "manufacturer", json_str(u.manufacturer.as_str()));
    add_member(&mut m, "product", json_str(u.product.as_str()));
    add_member(&mut m, "speed", JsonValue::UInt(u.speed as u64));
    add_member(&mut m, "speedLabel", json_str(u.speed_label()));
    add_member(&mut m, "version", json_str(u.version.as_str()));
    add_member(&mut m, "maxPowerMA", JsonValue::UInt(u.max_power_ma as u64));
    add_member(&mut m, "serial", json_str(u.serial.as_str()));
    add_member(&mut m, "removable", json_str(u.removable.as_str()));
    add_member(&mut m, "bus", JsonValue::UInt(u.bus_num as u64));
    add_member(&mut m, "device", JsonValue::UInt(u.dev_num as u64));
    add_member(&mut m, "isHub", JsonValue::Bool(u.is_hub));
    add_member(&mut m, "interfaces", interfaces_json(&u.interfaces));
    let ghost base = json_members(m@);
    assert(base =~= seq![
        ("vendorId"@, jstr(hex_id(u.vendor_id))),
        ("productId"@, jstr(hex_id(u.product_id))),
        ("manufacturer"@, jstr(u.manufacturer@)),
        ("product"@, jstr(u.product@)),
        ("speed"@, jnum(u.speed as int)),
        ("speedLabel"@, jstr(link_speed_text(tier_of(u.speed)))),
        ("version"@, jstr(u.version@)),
        ("maxPowerMA"@, jnum(u.max_power_ma as int)),
        ("serial"@, jstr(u.serial@)),
        ("removable"@, jstr(u.removable@)),
        ("bus"@, jnum(u.bus_num as int)),
        ("device"@, jnum(u.dev_num as int)),
        ("isHub"@, JsonView::Bool(u.is_hub)),
        ("interfaces"@, JsonView::Array(u.interfaces@.map_values(|i: UsbInterface| interface_view(i)))),
    ]);
    if show_raw {
        add_member(&mut m, "raw", raw_json(&u.raw_attributes));
        assert(json_members(m@) =~= base + raw_member(raw_of(u.raw_attributes@, show_raw)));
        JsonValue::Object(m)
    } else {
        assert(base =~= base + raw_member(None));
        JsonValue::Object(m)
    }
}

/// Append `key: x` when the reading is present.
fn add_reading(m: &mut Vec<(String, JsonValue)>, key: &str, v: Option<i64>)
    ensures
        json_members(final(m)@) == json_members(old(m)@) + reading(key@, v),
{
    match v {
        Some(x) => {
            add_member(m, key, JsonValue::Int(x));
        },
        None => {},
    }
    assert(json_members(m@) =~= json_members(old(m)@) + reading(key@, v));
}

fn supply_json(p: &TypeCPowerSupply) -> (r: JsonValue)
    ensures
        r@ == supply_view(*p),
{
    let mut m: Vec<(String, JsonValue)> = Vec::new();
    add_member(&mut m, "name", json_str(p.name.as_str()));
    add_member(&mut m, "online", JsonValue::Bool(p.online));
    let ghost m0 = json_members(m@);
    add_reading(&mut m, "voltageNowUV", p.voltage_now_uv);
    add_reading(&mut m, "currentNowUA", p.current_now_ua);
    add_reading(&mut m, "currentMaxUA", p.current_max_ua);
    add_reading(&mut m, "voltageMinUV", p.voltage_min_uv);
    add_reading(&mut m, "voltageMaxUV", p.voltage_max_uv);
    add_reading(&mut m, "negotiatedPowerMW", p.negotiated_power_mw());
    let ghost m1 = json_members(m@);
    add_member(&mut m, "chargeType", json_str(p.charge_type.as_str()));
    add_member(&mut m, "usbType", json_str(p.usb_type.as_str()));
    proof {
        assert(m0 =~= seq![("name"@, jstr(p.name@)), ("online"@, JsonView::Bool(p.online))]);
        assert(json_members(m@) =~= m1 + seq![("chargeType"@, jstr(p.charge_type@)), ("usbType"@, jstr(p.usb_type@))]);
        assert(json_members(m@) =~= seq![("name"@, jstr(p.name@)), ("online"@, JsonView::Bool(p.online))] + reading(
            "voltageNowUV"@,
            p.voltage_now_uv,
        ) + reading("currentNowUA"@, p.current_now_ua) + reading("currentMaxUA"@, p.current_max_ua)
            + reading("voltageMinUV"@, p.voltage_min_uv) + reading("voltageMaxUV"@, p.voltage_max_uv)
            + reading("negotiatedPowerMW"@, negotiated_mw(p.voltage_now_uv, p.current_now_ua))
            + seq![("chargeType"@, jstr(p.charge_type@)), ("usbType"@, jstr(p.usb_type@))]);
    }
    JsonValue::Object(m)
}

fn typec_json(tc: &TypeCPort, show_raw: bool) -> (r: JsonValue)
    ensures
        r@ == typec_view(*tc, raw_of(tc.raw_attributes@, show_raw)),
{
    let mut m: Vec<(String, JsonValue)> = Vec::new();
    add_member(&mut m, "port", JsonValue::Int(tc.port_number as i64));
    add_member(&mut m, "dataRole", JsonValue::Str(tc.current_data_role()));
    add_member(&mut m, "powerRole", JsonValue::Str(tc.current_power_role()));
    add_member(&mut m, "portType", json_str(tc.port_type.as_str()));
    add_member(&mut m, "powerOpMode", json_str(tc.power_op_mode.as_str()));
    add_member(&mut m, "connected", JsonValue::Bool(tc.is_connected()));
    let ghost m0 = json_members(m@);
    assert(m0 =~= seq![
        ("port"@, jnum(tc.port_number as int)),
        ("dataRole"@, jstr(bracketed_text(tc.data_role@))),
        ("powerRole"@, jstr(bracketed_text(tc.power_role@))),
        ("portType"@, jstr(tc.port_type@)),
        ("powerOpMode"@, jstr(tc.power_op_mode@)),
        ("connected"@, JsonView::Bool(tc.partner is Some || tc.cable is Some)),
    ]);
    match &tc.power_supply {
        Some(p) => {
            add_member(&mut m, "powerSupply", supply_json(p));
        },
        None => {},
    }
    let ghost m1 = json_members(m@);
    assert(m1 =~= m0 + match tc.power_supply {
        Some(p) => seq![("powerSupply"@, supply_view(p))],
        None => Seq::empty(),
    });
    if show_raw {
        add_member(&mut m, "raw", raw_json(&tc.raw_attributes));
        assert(json_members(m@) =~= m1 + raw_member(raw_of(tc.raw_attributes@, show_raw)));
        JsonValue::Object(m)
    } else {
        assert(m1 =~= m1 + raw_member(None));
        JsonValue::Object(m)
    }
}

fn cable_json(c: &CableInfo) -> (r: JsonValue)
    ensures
        r@ == cable_view(*c),
{
    let mut m: Vec<(String, JsonValue)> = Vec::new();
    add_member(&mut m, "type", json_str(c.cable_type.as_str()));
    add_member(&mut m, "maxWatts", JsonValue::UInt(c.max_watts as u64));
    add_member(&mut m, "vendorId", JsonValue::Str(hex_id_string(c.vendor_id)));
    add_member(&mut m, "vendorName", json_str(c.vendor_name.as_str()));
    let ghost m0 = json_members(m@);
    match c.speed {
        Some(sp) => {
            add_member(&mut m, "speed", json_str(cable_speed_label(sp)));
        },
        None => {},
    }
    let ghost m1 = json_members(m@);
    match c.current_rating {
        Some(cu) => {
            add_member(&mut m, "current", json_str(cable_current_label(cu)));
        },
        None => {},
    }
    proof {
        let sp_part = match c.speed {
            Some(sp) => seq![("speed"@, jstr(cable_speed_text(sp)))],
            None => Seq::<(Seq<char>, JsonView)>::empty(),
        };
        let cu_part = match c.current_rating {
            Some(cu) => seq![("current"@, jstr(cable_current_text(cu)))],
            None => Seq::<(Seq<char>, JsonView)>::empty(),
        };
        assert(m1 =~= m0 + sp_part);
        assert(json_members(m@) =~= m1 + cu_part);
        assert(json_members(m@) =~= seq![
            ("type"@, jstr(c.cable_type@)),
            ("maxWatts"@, jnum(c.max_watts as int)),
            ("vendorId"@, jstr(hex_id(c.vendor_id))),
            ("vendorName"@, jstr(c.vendor_name@)),
        ] + sp_part + cu_part);
    }
    JsonValue::Object(m)
}

fn pdo_json(p: &PowerDataObject) -> (r: JsonValue)
    ensures
        r@ == pdo_view(*p),
{
    let mut m: Vec<(String, JsonValue)> = Vec::new();
    add_member(&mut m, "type", json_str(p.pdo_type.label()));
    add_member(&mut m, "voltageMV", JsonValue::UInt(p.voltage_mv as u64));
    add_member(&mut m, "currentMA", JsonValue::UInt(p.current_ma as u64));
    add_member(&mut m, "powerMW", JsonValue::UInt(p.power_mw as u64));
    add_member(&mut m, "active", JsonValue::Bool(p.is_active));
    assert(json_members(m@) =~= seq![
        ("type"@, jstr(pdo_type_text(p.pdo_type))),
        ("voltageMV"@, jnum(p.voltage_mv as int)),
        ("currentMA"@, jnum(p.current_ma as int)),
        ("powerMW"@, jnum(p.power_mw as int)),
        ("active"@, JsonView::Bool(p.is_active)),
    ]);
    JsonValue::Object(m)
}

fn pd_json(pd: &PowerDeliveryPort) -> (r: JsonValue)
    ensures
        r@ == pd_view(*pd),
{
    let caps = &pd.source_capabilities;
    let mut items: Vec<JsonValue> = Vec::new();
    let mut i: usize = 0;
    while i < caps.len()
        invariant
            i <= caps@.len(),
            json_views(items@) == caps@.take(i as int).map_values(|p: PowerDataObject| pdo_view(p)),
        decreases caps@.len() - i,
    {
        add_item(&mut items, pdo_json(&caps[i]));
        assert(caps@.take(i + 1).map_values(|p: PowerDataObject| pdo_view(p)) =~= caps@.take(
            i as int,
        ).map_values(|p: PowerDataObject| pdo_view(p)).push(pdo_view(caps@[i as int])));
        i = i + 1;
    }
    assert(caps@.take(i as int) =~= caps@);
    let mut m: Vec<(String, JsonValue)> = Vec::new();
    add_member(&mut m, "sourceCapabilities", JsonValue::Array(items));
    add_member(&mut m, "maxPowerMW", JsonValue::UInt(pd.max_source_power_mw as u64));
    assert(json_members(m@) =~= seq![
        (
            "sourceCapabilities"@,
            JsonView::Array(pd.source_capabilities@.map_values(|p: PowerDataObject| pdo_view(p))),
        ),
        ("maxPowerMW"@, jnum(pd.max_source_power_mw as int)),
    ]);
    JsonValue::Object(m)
}

fn diag_json(d: &ChargingDiagnostic) -> (r: JsonValue)
    ensures
        r@ == diag_view(*d),
{
    let mut m: Vec<(String, JsonValue)> = Vec::new();
    add_member(&mut m, "summary", json_str(d.summary.as_str()));
    add_member(&mut m, "detail", json_str(d.detail.as_str()));
    add_member(&mut m, "isWarning", JsonValue::Bool(d.is_warning));
    assert(json_members(m@) =~= seq![
        ("summary"@, jstr(d.summary@)),
        ("detail"@, jstr(d.detail@)),
        ("isWarning"@, JsonView::Bool(d.is_warning)),
    ]);
    JsonValue::Object(m)
}

/// The JSON object that `--json` prints for `dev`: its fields under
/// camel-case keys, ids as `0x` and four hex digits, the power flow and
/// properties, then the USB device, Type-C port, cable, PD port and
/// diagnostic it carries; with `show_raw`, the raw attributes of the USB
/// device and of the port, in key order.
pub fn device_json(dev: &DeviceSummary, show_raw: bool) -> (r: JsonValue)
    ensures
        r@ == device_json_view(*dev, show_raw),
{
    proof {
        reveal_strlit("typec");
        reveal_strlit("hub");
        reveal_strlit("usb");
    }
    let mut m: Vec<(String, JsonValue)> = Vec::new();
    add_member(&mut m, "category", json_str(category_json_name(dev.category)));
    add_member(&mut m, "deviceClass", json_str(class_variant_name(dev.device_class)));
    add_member(&mut m, "deviceSubclass", json_str(dev.device_subclass.as_str()));
    add_member(&mut m, "status", json_str(status_name(dev.status)));
    add_member(&mut m, "headline", json_str(dev.headline.as_str()));
    add_member(&mut m, "subtitle", json_str(dev.subtitle.as_str()));
    add_member(&mut m, "icon", json_str(dev.icon.as_str()));
    add_member(&mut m, "vendor", json_str(dev.vendor.as_str()));
    add_member(&mut m, "product", json_str(dev.product.as_str()));
    add_member(&mut m, "vendorId", JsonValue::Str(hex_id_string(dev.vendor_id)));
    add_member(&mut m, "productId", JsonValue::Str(hex_id_string(dev.product_id)));
    add_member(&mut m, "primaryDriver", json_str(dev.primary_driver.as_str()));
    add_member(&mut m, "linkSpeedMbps", JsonValue::UInt(dev.link_speed_mbps as u64));
    add_member(&mut m, "usbVersion", json_str(dev.usb_version.as_str()));
    add_member(&mut m, "power", power_json(&dev.power));
    add_member(&mut m, "properties", props_json_value(&dev.properties));
    let ghost m0 = json_members(m@);
    assert(m0 =~= seq![
        ("category"@, jstr(category_json(dev.category))),
        ("deviceClass"@, jstr(class_name_text(dev.device_class))),
        ("deviceSubclass"@, jstr(dev.device_subclass@)),
        ("status"@, jstr(status_text(dev.status))),
        ("headline"@, jstr(dev.headline@)),
        ("subtitle"@, jstr(dev.subtitle@)),
        ("icon"@, jstr(dev.icon@)),
        ("vendor"@, jstr(dev.vendor@)),
        ("product"@, jstr(dev.product@)),
        ("vendorId"@, jstr(hex_id(dev.vendor_id))),
        ("productId"@, jstr(hex_id(dev.product_id))),
        ("primaryDriver"@, jstr(dev.primary_driver@)),
        ("linkSpeedMbps"@, jnum(dev.link_speed_mbps as int)),
        ("usbVersion"@, jstr(dev.usb_version@)),
        ("power"@, power_view(dev.power)),
        ("properties"@, props_json(props_view(dev.properties@))),
    ]);
    match &dev.usb_device {
        Some(u) => {
            add_member(&mut m, "usb", usb_json(u, show_raw));
        },
        None => {},
    }
    let ghost m1 = json_members(m@);
    match &dev.typec_port {
        Some(tc) => {
            add_member(&mut m, "typec", typec_json(tc, show_raw));
        },
        None => {},
    }
    let ghost m2 = json_members(m@);
    match &dev.cable {
        Some(c) => {
            add_member(&mut m, "cable", cable_json(c));
        },
        None => {},
    }
    let ghost m3 = json_members(m@);
    match &dev.power_delivery {
        Some(pd) => {
            add_member(&mut m, "powerDelivery", pd_json(pd));
        },
        None => {},
    }
    let ghost m4 = json_members(m@);
    match &dev.charging_diag {
        Some(d) => {
            add_member(&mut m, "charging", diag_json(d));
        },
        None => {},
    }
    let r = JsonValue::Object(m);
    proof {
        assert(m1 =~= m0 + match dev.usb_device {
            Some(u) => seq![("usb"@, usb_view(u, raw_of(u.raw_attributes@, show_raw)))],
            None => Seq::empty(),
        });
        assert(m2 =~= m1 + match dev.typec_port {
            Some(tc) => seq![("typec"@, typec_view(tc, raw_of(tc.raw_attributes@, show_raw)))],
            None => Seq::empty(),
        });
        assert(m3 =~= m2 + match dev.cable {
            Some(c) => seq![("cable"@, cable_view(c))],
            None => Seq::empty(),
        });
        assert(m4 =~= m3 + match dev.power_delivery {
            Some(pd) => seq![("powerDelivery"@, pd_view(pd))],
            None => Seq::empty(),
        });
        assert(json_members(m@) =~= m4 + match dev.charging_diag {
            Some(d) => seq![("charging"@, diag_view(d))],
            None => Seq::empty(),
        });
        assert(r@ == device_json_view(*dev, show_raw));
    }
    r
}

} // verus!

//! Translation of accessory records into a registry of gauge families.

use vstd::prelude::*;
use vstd::string::*;
use crate::accessory::{Accessory, ServiceCharacteristics, gauge_value_of};

verus! {

/// What inflector's snake-case conversion makes of a text.
pub uninterp spec fn snake_of(s: Seq<char>) -> Seq<char>;

/// Relies on inflector's `to_snake_case`: its result depends on the text alone.
#[verifier::external_body]
fn snake_case(s: &str) -> (r: String)
    ensures
        r@ == snake_of(s@),
{
    inflector::cases::snakecase::to_snake_case(s)
}

/// One sample of a gauge family: the value of its `name` label, and the gauge's value as
/// IEEE-754 binary64 bits.
pub struct Sample {
    pub label: String,
    pub value: u64,
}

/// A gauge family: its metric name, its help text, and one sample per label value.
pub struct GaugeFamily {
    pub name: String,
    pub help: String,
    pub samples: Vec<Sample>,
}

/// The gauge families of one scrape, in the order their names first appeared.
pub struct MetricsRegistry {
    pub families: Vec<GaugeFamily>,
}

/// The mathematical value of a `GaugeFamily`.
pub struct FamilyView {
    pub name: Seq<char>,
    pub help: Seq<char>,
    pub samples: Seq<(Seq<char>, u64)>,
}

impl View for Sample {
    type V = (Seq<char>, u64);

    open spec fn view(&self) -> (Seq<char>, u64) {
        (self.label@, self.value)
    }
}

impl View for GaugeFamily {
    type V = FamilyView;

    open spec fn view(&self) -> FamilyView {
        FamilyView { name: self.name@, help: self.help@, samples: self.samples@.map_values(|s: Sample| s@) }
    }
}

impl View for MetricsRegistry {
    type V = Seq<FamilyView>;

    open spec fn view(&self) -> Seq<FamilyView> {
        self.families@.map_values(|f: GaugeFamily| f@)
    }
}

/// One value to be set in the registry: metric name, help text, label value, gauge value.
pub struct GaugePoint {
    pub name: Seq<char>,
    pub help: Seq<char>,
    pub label: Seq<char>,
    pub value: u64,
}

/// Whether a format is "string" in any mix of ASCII letter case.
pub open spec fn is_string_format(f: Seq<char>) -> bool {
    &&& f.len() == 6
    &&& f[0] == 's' || f[0] == 'S'
    &&& f[1] == 't' || f[1] == 'T'
    &&& f[2] == 'r' || f[2] == 'R'
    &&& f[3] == 'i' || f[3] == 'I'
    &&& f[4] == 'n' || f[4] == 'N'
    &&& f[5] == 'g' || f[5] == 'G'
}

/// The metric name for a service type and a characteristic type: both snake-cased, joined
/// by an underscore.
pub open spec fn metric_name_of(service_type: Seq<char>, characteristic_type: Seq<char>) -> Seq<char> {
    snake_of(service_type) + seq!['_'] + snake_of(characteristic_type)
}

/// The value that a characteristic sets in the registry.
pub open spec fn point_of(c: ServiceCharacteristics) -> GaugePoint {
    GaugePoint {
        name: metric_name_of(c.service_type@, c.type_@),
        help: c.description@,
        label: snake_of(c.service_name@),
        value: gauge_value_of(c.value),
    }
}

/// The values that characteristics set, in order, leaving out those of string format.
pub open spec fn characteristic_points(cs: Seq<ServiceCharacteristics>) -> Seq<GaugePoint>
    decreases cs.len(),
{
    if cs.len() == 0 {
        Seq::empty()
    } else if is_string_format(cs.last().format@) {
        characteristic_points(cs.drop_last())
    } else {
        characteristic_points(cs.drop_last()).push(point_of(cs.last()))
    }
}

/// The values that the characteristics of all accessories set, accessory by accessory.
pub open spec fn gauge_points(accessories: Seq<Accessory>) -> Seq<GaugePoint>
    decreases accessories.len(),
{
    if accessories.len() == 0 {
        Seq::empty()
    } else {
        gauge_points(accessories.drop_last()) + characteristic_points(
            accessories.last().service_characteristics@,
        )
    }
}

/// The index of the last family named `name`, or -1 if there is none.
pub open spec fn family_index(reg: Seq<FamilyView>, name: Seq<char>) -> int
    decreases reg.len(),
{
    if reg.len() == 0 {
        -1
    } else if reg.last().name == name {
        reg.len() - 1
    } else {
        family_index(reg.drop_last(), name)
    }
}

/// The index of the last sample labelled `label`, or -1 if there is none.
pub open spec fn sample_index(samples: Seq<(Seq<char>, u64)>, label: Seq<char>) -> int
    decreases samples.len(),
{
    if samples.len() == 0 {
        -1
    } else if samples.last().0 == label {
        samples.len() - 1
    } else {
        sample_index(samples.drop_last(), label)
    }
}

/// The samples after setting `label` to `value`: the label's sample is overwritten, or
/// a new one is added at the end.
pub open spec fn set_sample(samples: Seq<(Seq<char>, u64)>, label: Seq<char>, value: u64) -> Seq<
    (Seq<char>, u64),
> {
    let j = sample_index(samples, label);
    if j < 0 {
        samples.push((label, value))
    } else {
        samples.update(j, (label, value))
    }
}

/// The registry after setting one value: the family of that name is reused, keeping its
/// help text, or a new family is added at the end with the point's help text. A label set
/// twice keeps the last value.
pub open spec fn record(reg: Seq<FamilyView>, p: GaugePoint) -> Seq<FamilyView> {
    let i = family_index(reg, p.name);
    if i < 0 {
        reg.push(FamilyView { name: p.name, help: p.help, samples: seq![(p.label, p.value)] })
    } else {
        reg.update(i, FamilyView { samples: set_sample(reg[i].samples, p.label, p.value), ..reg[i] })
    }
}

/// The registry that setting the points in order builds from an empty one.
pub open spec fn registry_of(points: Seq<GaugePoint>) -> Seq<FamilyView>
    decreases points.len(),
{
    if points.len() == 0 {
        Seq::empty()
    } else {
        record(registry_of(points.drop_last()), points.last())
    }
}

/// Whether a format is "string" in any letter case: such characteristics are not gauges.
pub fn is_string_format_str(format: &str) -> (r: bool)
    ensures
        r == is_string_format(format@),
{
    if format.unicode_len() != 6 {
        return false;
    }
    let c0 = format.get_char(0);
    let c1 = format.get_char(1);
    let c2 = format.get_char(2);
    let c3 = format.get_char(3);
    let c4 = format.get_char(4);
    let c5 = format.get_char(5);
    (c0 == 's' || c0 == 'S') && (c1 == 't' || c1 == 'T') && (c2 == 'r' || c2 == 'R') && (c3 == 'i'
        || c3 == 'I') && (c4 == 'n' || c4 == 'N') && (c5 == 'g' || c5 == 'G')
}

/// Joins two snake-cased parts of a metric name with an underscore.
pub fn join_metric_name(service_part: &str, characteristic_part: &str) -> (r: String)
    ensures
        r@ == service_part@ + seq!['_'] + characteristic_part@,
{
    let mut r = String::from_str(service_part);
    r.append("_");
    proof {
        reveal_strlit("_");
    }
    r.append(characteristic_part);
    r
}

/// The metric name for a service type and a characteristic type, such as `lightbulb_on`
/// for "Lightbulb" and "On".
pub fn metric_name(service_type: &str, characteristic_type: &str) -> (r: String)
    ensures
        r@ == metric_name_of(service_type@, characteristic_type@),
{
    let s = snake_case(service_type);
    let c = snake_case(characteristic_type);
    join_metric_name(s.as_str(), c.as_str())
}

/// The index of the last family of `families` named `name`.
fn find_family(families: &Vec<GaugeFamily>, name: &String) -> (r: Option<usize>)
    ensures
        match r {
            Some(i) => i < families@.len() && family_index(
                families@.map_values(|f: GaugeFamily| f@),
                name@,
            ) == i,
            None => family_index(families@.map_values(|f: GaugeFamily| f@), name@) == -1,
        },
{
    let ghost v = families@.map_values(|f: GaugeFamily| f@);
    let mut i: usize = families.len();
    assert(v.subrange(0, i as int) =~= v);
    while i > 0
        invariant
            i <= families.len(),
            v == families@.map_values(|f: GaugeFamily| f@),
            family_index(v, name@) == family_index(v.subrange(0, i as int), name@),
        decreases i,
    {
        assert(v.subrange(0, i as int).drop_last() =~= v.subrange(0, i - 1));
        if families[i - 1].name == *name {
            return Some(i - 1);
        }
        i = i - 1;
    }
    None
}

/// The index of the last sample of `samples` labelled `label`.
fn find_sample(samples: &Vec<Sample>, label: &String) -> (r: Option<usize>)
    ensures
        match r {
            Some(j) => j < samples@.len() && samples@[j as int].label@ == label@ && sample_index(
                samples@.map_values(|s: Sample| s@),
                label@,
            ) == j,
            None => sample_index(samples@.map_values(|s: Sample| s@), label@) == -1,
        },
{
    let ghost v = samples@.map_values(|s: Sample| s@);
    let mut j: usize = samples.len();
    assert(v.subrange(0, j as int) =~= v);
    while j > 0
        invariant
            j <= samples.len(),
            v == samples@.map_values(|s: Sample| s@),
            sample_index(v, label@) == sample_index(v.subrange(0, j as int), label@),
        decreases j,
    {
        assert(v.subrange(0, j as int).drop_last() =~= v.subrange(0, j - 1));
        if samples[j - 1].label == *label {
            return Some(j - 1);
        }
        j = j - 1;
    }
    None
}

/// Sets the sample labelled `label` to `value`, adding it if the label is new.
fn set_label(samples: &mut Vec<Sample>, label: String, value: u64)
    ensures
        final(samples)@.map_values(|s: Sample| s@) == set_sample(
            old(samples)@.map_values(|s: Sample| s@),
            label@,
            value,
        ),
{
    match find_sample(samples, &label) {
        Some(j) => {
            samples[j].value = value;
            assert(samples@.map_values(|s: Sample| s@) =~= set_sample(
                old(samples)@.map_values(|s: Sample| s@),
                label@,
                value,
            ));
        },
        None => {
            samples.push(Sample { label, value });
            assert(samples@.map_values(|s: Sample| s@) =~= set_sample(
                old(samples)@.map_values(|s: Sample| s@),
                label@,
                value,
            ));
        },
    }
}

impl MetricsRegistry {
    /// An empty registry.
    pub fn new() -> (r: MetricsRegistry)
        ensures
            r@.len() == 0,
    {
        let r = MetricsRegistry { families: Vec::new() };
        assert(r@ =~= Seq::<FamilyView>::empty());
        r
    }

    /// Sets the sample labelled `label` of the family `name` to `value`. A new family
    /// takes `help` as its help text; an existing one keeps its own.
    pub fn set_gauge(&mut self, name: String, help: String, label: String, value: u64)
        ensures
            final(self)@ == record(
                old(self)@,
                GaugePoint { name: name@, help: help@, label: label@, value },
            ),
    {
        let ghost p = GaugePoint { name: name@, help: help@, label: label@, value };
        match find_family(&self.families, &name) {
            Some(i) => {
                set_label(&mut self.families[i].samples, label, value);
                assert(self@ =~= record(old(self)@, p));
            },
            None => {
                let samples = vec![Sample { label, value }];
                assert(samples@.map_values(|s: Sample| s@) =~= seq![(p.label, p.value)]);
                self.families.push(GaugeFamily { name, help, samples });
                assert(self@ =~= record(old(self)@, p));
            },
        }
    }
}

/// Builds the registry for one scrape: every characteristic whose format is not "string"
/// (in any letter case) sets, in the gauge family named after its service type and
/// characteristic type, the sample labelled with its snake-cased service name to its
/// gauge value.
pub fn build_registry(accessories: &Vec<Accessory>) -> (reg: MetricsRegistry)
    ensures
        reg@ == registry_of(gauge_points(accessories@)),
        accessories@.len() == 0 ==> reg@.len() == 0,
{
    let mut reg = MetricsRegistry::new();
    let mut i: usize = 0;
    while i < accessories.len()
        invariant
            i <= accessories.len(),
            reg@ == registry_of(gauge_points(accessories@.subrange(0, i as int))),
        decreases accessories.len() - i,
    {
        let ghost done = gauge_points(accessories@.subrange(0, i as int));
        let chars = &accessories[i].service_characteristics;
        let mut j: usize = 0;
        assert(chars@.subrange(0, 0) =~= Seq::<ServiceCharacteristics>::empty());
        assert(done + characteristic_points(chars@.subrange(0, 0)) =~= done);
        while j < chars.len()
            invariant
                j <= chars.len(),
                chars == &accessories@[i as int].service_characteristics,
                reg@ == registry_of(done + characteristic_points(chars@.subrange(0, j as int))),
            decreases chars.len() - j,
        {
            let c = &chars[j];
            let ghost before = done + characteristic_points(chars@.subrange(0, j as int));
            assert(chars@.subrange(0, j + 1).drop_last() =~= chars@.subrange(0, j as int));
            if !is_string_format_str(c.format.as_str()) {
                let name = metric_name(c.service_type.as_str(), c.type_.as_str());
                let label = snake_case(c.service_name.as_str());
                let help = c.description.clone();
                let value = c.value.gauge_value();
                reg.set_gauge(name, help, label, value);
                assert(done + characteristic_points(chars@.subrange(0, j + 1)) =~= before.push(
                    point_of(*c),
                ));
                assert(before.push(point_of(*c)).drop_last() =~= before);
            } else {
                assert(done + characteristic_points(chars@.subrange(0, j + 1)) =~= before);
            }
            j = j + 1;
        }
        assert(chars@.subrange(0, j as int) =~= chars@);
        assert(accessories@.subrange(0, i + 1).drop_last() =~= accessories@.subrange(0, i as int));
        i = i + 1;
    }
    assert(accessories@.subrange(0, i as int) =~= accessories@);
    reg
}

proof fn lemma_family_index(reg: Seq<FamilyView>, name: Seq<char>)
    ensures
        -1 <= family_index(reg, name) < reg.len(),
        family_index(reg, name) >= 0 ==> reg[family_index(reg, name)].name == name,
    decreases reg.len(),
{
    if reg.len() > 0 && reg.last().name != name {
        lemma_family_index(reg.drop_last(), name);
    }
}

proof fn lemma_sample_index(samples: Seq<(Seq<char>, u64)>, label: Seq<char>)
    ensures
        -1 <= sample_index(samples, label) < samples.len(),
        sample_index(samples, label) >= 0 ==> samples[sample_index(samples, label)].0 == label,
    decreases samples.len(),
{
    if samples.len() > 0 && samples.last().0 != label {
        lemma_sample_index(samples.drop_last(), label);
    }
}

/// Some point of `points` carries this metric name and label.
pub open spec fn point_among(points: Seq<GaugePoint>, name: Seq<char>, label: Seq<char>) -> bool {
    exists|k: int| 0 <= k < points.len() && #[trigger] points[k].name == name && points[k].label == label
}

/// Some characteristic of `accessories` whose format is not "string" yields this metric
/// name and label.
pub open spec fn set_by_gauge_characteristic(
    accessories: Seq<Accessory>,
    name: Seq<char>,
    label: Seq<char>,
) -> bool {
    exists|a: int, c: int|
        0 <= a < accessories.len() && 0 <= c < accessories[a].service_characteristics@.len()
            && !is_string_format(#[trigger] accessories[a].service_characteristics@[c].format@)
            && point_of(accessories[a].service_characteristics@[c]).name == name && point_of(
            accessories[a].service_characteristics@[c],
        ).label == label
}

/// Every family of a registry built from points has a sample, and every sample carries the
/// name and label of one of the points.
proof fn lemma_samples_come_from_points(points: Seq<GaugePoint>)
    ensures
        forall|f: int|
            0 <= f < registry_of(points).len() ==> #[trigger] registry_of(points)[f].samples.len()
                > 0,
        forall|f: int, s: int|
            #![trigger registry_of(points)[f].samples[s]]
            0 <= f < registry_of(points).len() && 0 <= s < registry_of(points)[f].samples.len()
                ==> point_among(points, registry_of(points)[f].name, registry_of(points)[f].samples[s].0),
    decreases points.len(),
{
    if points.len() > 0 {
        let rest = points.drop_last();
        let p = points.last();
        let pre = registry_of(rest);
        let reg = registry_of(points);
        let last = points.len() - 1;
        lemma_samples_come_from_points(rest);
        lemma_family_index(pre, p.name);
        let i = family_index(pre, p.name);
        assert(reg == record(pre, p));
        if i >= 0 {
            lemma_sample_index(pre[i].samples, p.label);
        }
        assert forall|f: int| 0 <= f < reg.len() implies #[trigger] reg[f].samples.len() > 0 by {
            if f < pre.len() && f != i {
                assert(reg[f] == pre[f]);
            }
        }
        assert forall|f: int, s: int| 0 <= f < reg.len() && 0 <= s < reg[f].samples.len() implies
            #[trigger] point_among(points, reg[f].name, reg[f].samples[s].0) by {
            let from_rest = (i < 0 && f < pre.len()) || (i >= 0 && f != i) || (f == i && {
                let j = sample_index(pre[i].samples, p.label);
                (j < 0 && s < pre[i].samples.len()) || (j >= 0 && s != j)
            });
            if from_rest {
                assert(reg[f].name == pre[f].name);
                assert(reg[f].samples[s].0 == pre[f].samples[s].0);
                assert(point_among(rest, pre[f].name, pre[f].samples[s].0));
                let k = choose|k: int|
                    0 <= k < rest.len() && #[trigger] rest[k].name == pre[f].name && rest[k].label
                        == pre[f].samples[s].0;
                assert(points[k] == rest[k]);
            } else {
                assert(points[last] == p);
                assert(points[last].name == reg[f].name);
            }
        }
    }
}

/// Every value that characteristics set comes from one of them whose format is not
/// "string".
proof fn lemma_points_come_from_characteristics(cs: Seq<ServiceCharacteristics>)
    ensures
        forall|k: int|
            0 <= k < characteristic_points(cs).len() ==> exists|c: int|
                0 <= c < cs.len() && !is_string_format(cs[c].format@) && #[trigger] characteristic_points(
                    cs,
                )[k] == point_of(#[trigger] cs[c]),
    decreases cs.len(),
{
    if cs.len() > 0 {
        let rest = cs.drop_last();
        lemma_points_come_from_characteristics(rest);
        assert forall|k: int| 0 <= k < characteristic_points(cs).len() implies exists|c: int|
            0 <= c < cs.len() && !is_string_format(cs[c].format@) && #[trigger] characteristic_points(
                cs,
            )[k] == point_of(#[trigger] cs[c]) by {
            if k < characteristic_points(rest).len() {
                let c = choose|c: int|
                    0 <= c < rest.len() && !is_string_format(rest[c].format@)
                        && #[trigger] characteristic_points(rest)[k] == point_of(#[trigger] rest[c]);
                assert(cs[c] == rest[c]);
            } else {
                assert(cs[cs.len() - 1] == cs.last());
            }
        }
    }
}

/// Every value that accessories set comes from a characteristic of one of them whose
/// format is not "string".
proof fn lemma_points_come_from_accessories(accessories: Seq<Accessory>)
    ensures
        forall|k: int|
            0 <= k < gauge_points(accessories).len() ==> set_by_gauge_characteristic(
                accessories,
                #[trigger] gauge_points(accessories)[k].name,
                gauge_points(accessories)[k].label,
            ),
    decreases accessories.len(),
{
    if accessories.len() > 0 {
        let rest = accessories.drop_last();
        let last = accessories.len() - 1;
        let cs = accessories.last().service_characteristics@;
        lemma_points_come_from_accessories(rest);
        lemma_points_come_from_characteristics(cs);
        let ps = gauge_points(accessories);
        assert(ps == gauge_points(rest) + characteristic_points(cs));
        assert forall|k: int| 0 <= k < ps.len() implies set_by_gauge_characteristic(
            accessories,
            #[trigger] ps[k].name,
            ps[k].label,
        ) by {
            let n = gauge_points(rest).len();
            if k < n {
                assert(ps[k] == gauge_points(rest)[k]);
                assert(set_by_gauge_characteristic(rest, ps[k].name, ps[k].label));
                let (a, c) = choose|a: int, c: int|
                    0 <= a < rest.len() && 0 <= c < rest[a].service_characteristics@.len()
                        && !is_string_format(#[trigger] rest[a].service_characteristics@[c].format@)
                        && point_of(rest[a].service_characteristics@[c]).name == ps[k].name
                        && point_of(rest[a].service_characteristics@[c]).label == ps[k].label;
                assert(accessories[a] == rest[a]);
                assert(!is_string_format(accessories[a].service_characteristics@[c].format@));
            } else {
                assert(ps[k] == characteristic_points(cs)[k - n]);
                let c = choose|c: int|
                    0 <= c < cs.len() && !is_string_format(cs[c].format@)
                        && #[trigger] characteristic_points(cs)[k - n] == point_of(#[trigger] cs[c]);
                assert(accessories[last] == accessories.last());
                assert(!is_string_format(accessories[last].service_characteristics@[c].format@));
            }
        }
    }
}

/// A characteristic whose format is "string", in any letter case, never shows in the
/// registry: every family has a sample, and every sample carries the metric name and
/// label of a characteristic whose format is not "string".
pub proof fn lemma_string_characteristics_emit_nothing(accessories: Seq<Accessory>)
    ensures
        forall|f: int|
            0 <= f < registry_of(gauge_points(accessories)).len() ==> #[trigger] registry_of(
                gauge_points(accessories),
            )[f].samples.len() > 0,
        forall|f: int, s: int|
            #![trigger registry_of(gauge_points(accessories))[f].samples[s]]
            0 <= f < registry_of(gauge_points(accessories)).len() && 0 <= s < registry_of(
                gauge_points(accessories),
            )[f].samples.len() ==> set_by_gauge_characteristic(
                accessories,
                registry_of(gauge_points(accessories))[f].name,
                registry_of(gauge_points(accessories))[f].samples[s].0,
            ),
{
    let ps = gauge_points(accessories);
    let reg = registry_of(ps);
    lemma_samples_come_from_points(ps);
    lemma_points_come_from_accessories(accessories);
    assert forall|f: int, s: int| 0 <= f < reg.len() && 0 <= s < reg[f].samples.len() implies
        set_by_gauge_characteristic(accessories, reg[f].name, #[trigger] reg[f].samples[s].0) by {
        assert(point_among(ps, reg[f].name, reg[f].samples[s].0));
        let k = choose|k: int|
            0 <= k < ps.len() && #[trigger] ps[k].name == reg[f].name && ps[k].label
                == reg[f].samples[s].0;
        assert(set_by_gauge_characteristic(accessories, ps[k].name, ps[k].label));
    }
}

/// A characteristic whose value is not a number sets its gauge to 0.0 (all bits clear)
/// rather than failing, and a characteristic of string format sets nothing.
pub proof fn lemma_non_numeric_value_reads_zero(c: ServiceCharacteristics)
    requires
        !(c.value is Number),
    ensures
        point_of(c).value == 0,
        characteristic_points(seq![c]) == (if is_string_format(c.format@) {
            Seq::<GaugePoint>::empty()
        } else {
            seq![point_of(c)]
        }),
{
    assert(seq![c].drop_last() =~= Seq::<ServiceCharacteristics>::empty());
    assert(characteristic_points(Seq::<ServiceCharacteristics>::empty()).push(point_of(c)) =~= seq![
        point_of(c),
    ]);
}

} // verus!

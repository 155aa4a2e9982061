use vstd::prelude::*;
use crate::mvt::{has_property, MvtFeature, MvtValue};
use crate::render::Color;

verus! {

/// How the points of a feature are drawn.
#[derive(Clone, Copy, Debug, PartialEq, Eq, Structural)]
pub struct PointSymbol {
    pub size: u32,
    pub color: Color,
}

/// How the lines of a feature are drawn.
#[derive(Clone, Copy, Debug, PartialEq, Eq, Structural)]
pub struct LineSymbol {
    pub width: u32,
    pub stroke_color: Color,
}

/// How the polygons of a feature are drawn.
#[derive(Clone, Copy, Debug, PartialEq, Eq, Structural)]
pub struct PolygonSymbol {
    pub fill_color: Color,
}

/// The symbols of a rule, one for each kind of shape it can draw.
#[derive(Clone, Copy, Debug, PartialEq, Eq, Structural)]
pub struct VectorTileSymbol {
    pub point: Option<PointSymbol>,
    pub line: Option<LineSymbol>,
    pub polygon: Option<PolygonSymbol>,
}

/// A rule of a style: the features it applies to, and how they are drawn.
#[derive(Clone, Debug, PartialEq, Eq)]
pub struct StyleRule {
    /// The layer whose features the rule applies to; all layers if absent.
    pub layer_name: Option<String>,
    /// The attributes that a feature must have for the rule to apply.
    pub properties: Vec<(String, MvtValue)>,
    pub symbol: VectorTileSymbol,
}

/// The style of a vector tile layer.
#[derive(Clone, Debug, PartialEq, Eq)]
pub struct VectorTileStyle {
    /// The rules, in order of precedence.
    pub rules: Vec<StyleRule>,
    /// How features are drawn to which no rule applies.
    pub default_symbol: VectorTileSymbol,
    /// The colour of a tile where nothing is drawn.
    pub background: Color,
}

impl StyleRule {
    /// Whether the rule applies to `feature` of the layer `layer_name`: the
    /// rule names no layer or names this one, and the feature has every
    /// attribute that the rule asks for.
    pub open spec fn applies(&self, layer_name: Seq<char>, feature: &MvtFeature) -> bool {
        &&& self.layer_name.is_some() ==> self.layer_name.unwrap()@ == layer_name
        &&& forall|i: int|
            0 <= i < self.properties@.len() ==> has_property(
                feature.properties@,
                (#[trigger] self.properties@[i]).0@,
                self.properties@[i].1@,
            )
    }

    /// Whether the rule applies to `feature` of the layer `layer_name`.
    pub fn applies_to(&self, layer_name: &String, feature: &MvtFeature) -> (b: bool)
        ensures
            b == self.applies(layer_name@, feature),
    {
        match &self.layer_name {
            Some(name) => {
                let same: bool = *name == *layer_name;
                if !same {
                    return false;
                }
            },
            None => {},
        }
        let mut k: usize = 0;
        while k < self.properties.len()
            invariant
                k <= self.properties@.len(),
                forall|i: int|
                    0 <= i < k ==> has_property(
                        feature.properties@,
                        (#[trigger] self.properties@[i]).0@,
                        self.properties@[i].1@,
                    ),
            decreases self.properties@.len() - k,
        {
            if !feature.has_property(&self.properties[k].0, &self.properties[k].1) {
                return false;
            }
            k += 1;
        }
        true
    }
}

/// The position of the first rule from `from` on that applies to `feature`
/// of the layer `layer_name`, if there is one.
pub open spec fn first_applicable(
    rules: Seq<StyleRule>,
    layer_name: Seq<char>,
    feature: &MvtFeature,
    from: int,
) -> Option<int>
    decreases rules.len() - from,
{
    if from < 0 || from >= rules.len() {
        None
    } else if rules[from].applies(layer_name, feature) {
        Some(from)
    } else {
        first_applicable(rules, layer_name, feature, from + 1)
    }
}

/// The first applicable rule is applicable, and no rule before it is; where
/// there is none, no rule is applicable.
pub proof fn lemma_first_applicable(
    rules: Seq<StyleRule>,
    layer_name: Seq<char>,
    feature: &MvtFeature,
    from: int,
)
    requires
        0 <= from <= rules.len(),
    ensures
        match first_applicable(rules, layer_name, feature, from) {
            Some(i) => from <= i < rules.len() && rules[i].applies(layer_name, feature)
                && forall|j: int| from <= j < i ==> !(#[trigger] rules[j]).applies(layer_name, feature),
            None => forall|j: int|
                from <= j < rules.len() ==> !(#[trigger] rules[j]).applies(layer_name, feature),
        },
    decreases rules.len() - from,
{
    if from < rules.len() && !rules[from].applies(layer_name, feature) {
        lemma_first_applicable(rules, layer_name, feature, from + 1);
    }
}

impl VectorTileStyle {
    /// The position of the rule that decides how `feature` of the layer
    /// `layer_name` is drawn: the first one that applies.
    pub open spec fn rule_index(&self, layer_name: Seq<char>, feature: &MvtFeature) -> Option<int> {
        first_applicable(self.rules@, layer_name, feature, 0)
    }

    /// The symbol with which `feature` of the layer `layer_name` is drawn:
    /// that of the first rule that applies, and the default symbol where no
    /// rule applies.
    pub open spec fn symbol_for(&self, layer_name: Seq<char>, feature: &MvtFeature) -> VectorTileSymbol {
        match self.rule_index(layer_name, feature) {
            Some(i) => self.rules@[i].symbol,
            None => self.default_symbol,
        }
    }

    /// The rule that decides how `feature` of the layer `layer_name` is
    /// drawn: the first one that applies, if any does.
    pub fn get_style_rule(&self, layer_name: &String, feature: &MvtFeature) -> (r: Option<&StyleRule>)
        ensures
            r.is_some() <==> self.rule_index(layer_name@, feature).is_some(),
            r.is_some() ==> *r.unwrap() == self.rules@[self.rule_index(
                layer_name@,
                feature,
            ).unwrap()],
    {
        let mut k: usize = 0;
        while k < self.rules.len()
            invariant
                k <= self.rules@.len(),
                first_applicable(self.rules@, layer_name@, feature, 0) == first_applicable(
                    self.rules@,
                    layer_name@,
                    feature,
                    k as int,
                ),
            decreases self.rules@.len() - k,
        {
            if self.rules[k].applies_to(layer_name, feature) {
                return Some(&self.rules[k]);
            }
            k += 1;
        }
        None
    }
}

} // verus!

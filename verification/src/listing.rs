//! A catalog as a JSON document: an array with one object for each model,
//! which holds the model's name and the array of its aliases.

use crate::catalog::{Model, Provider};
use crate::json::{json_array, json_string, quote, texts, write_array};
use vstd::prelude::*;

verus! {

/// The aliases of a model, each as a JSON string.
pub open spec fn alias_strings(model: Model) -> Seq<Seq<char>> {
    model.aliases@.map_values(|alias: &'static str| json_string(alias@))
}

/// A model as a JSON object.
pub open spec fn model_json(model: Model) -> Seq<char> {
    "{\"name\":"@ + json_string(model.name@) + ",\"aliases\":"@ + json_array(alias_strings(model))
        + "}"@
}

/// A catalog as a JSON array of its models, in their order.
pub open spec fn catalog_json(catalog: Seq<Model>) -> Seq<char> {
    json_array(catalog.map_values(|model: Model| model_json(model)))
}

impl Model {
    /// Writes this model as a JSON object.
    pub fn to_json(&self) -> (r: String)
        ensures
            r@ == model_json(*self),
    {
        let mut aliases: Vec<String> = Vec::new();
        let mut k: usize = 0;
        while k < 1
            invariant
                k <= 1,
                self.aliases@.len() == 1,
                aliases@.len() == k,
                texts(aliases@) == alias_strings(*self).take(k as int),
            decreases 1 - k,
        {
            let ghost before = aliases@;
            aliases.push(quote(self.aliases[k]));
            proof {
                let wanted = alias_strings(*self).take(k + 1);
                assert forall|j: int| 0 <= j < k + 1 implies texts(aliases@)[j] == wanted[j] by {
                    if j < k {
                        assert(texts(before)[j] == alias_strings(*self).take(k as int)[j]);
                    }
                }
                assert(texts(aliases@) =~= wanted);
            }
            k += 1;
        }
        proof {
            assert(alias_strings(*self).take(1) =~= alias_strings(*self));
        }
        let mut out = "{\"name\":".to_owned();
        out.append(quote(self.name).as_str());
        out.append(",\"aliases\":");
        out.append(write_array(&aliases).as_str());
        out.append("}");
        out
    }
}

/// Writes a catalog as a JSON document.
pub fn catalog_to_json(catalog: &Vec<Model>) -> (r: String)
    ensures
        r@ == catalog_json(catalog@),
{
    let ghost all = catalog@.map_values(|model: Model| model_json(model));
    let mut items: Vec<String> = Vec::new();
    let mut i: usize = 0;
    while i < catalog.len()
        invariant
            i <= catalog@.len(),
            all == catalog@.map_values(|model: Model| model_json(model)),
            items@.len() == i,
            texts(items@) == all.take(i as int),
        decreases catalog@.len() - i,
    {
        let ghost before = items@;
        items.push(catalog[i].to_json());
        proof {
            let wanted = all.take(i + 1);
            assert forall|j: int| 0 <= j < i + 1 implies texts(items@)[j] == wanted[j] by {
                if j < i {
                    assert(texts(before)[j] == all.take(i as int)[j]);
                }
            }
            assert(texts(items@) =~= wanted);
        }
        i += 1;
    }
    proof {
        assert(all.take(i as int) =~= all);
    }
    write_array(&items)
}

/// The catalog of `provider` as a JSON document.
pub fn models(provider: Provider) -> (r: String)
    ensures
        r@ == catalog_json(provider.entries()),
{
    catalog_to_json(&provider.catalog())
}

} // verus!

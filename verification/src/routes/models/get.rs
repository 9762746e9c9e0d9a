//! Listing the models of the provider.

use vstd::prelude::*;

use crate::openrouter::types::{Modality, Model, Parameter};

verus! {

/// A model as the client sees it.
#[derive(Debug, Clone, PartialEq, Eq)]
pub struct ModelResponse {
    pub id: String,
    pub slug: String,
    pub name: String,
    pub description: String,
    /// Whether the model reads images.
    pub image: bool,
    /// Whether the model can be asked to reason.
    pub reasoning: bool,
}

/// What a model of the catalogue becomes for the client: it reads images
/// where `Image` is among its input modalities, and reasons where
/// `Reasoning` is among its supported parameters.
pub fn model_to_response(model: Model) -> (response: ModelResponse)
    ensures
        response.id == model.id,
        response.slug == model.slug,
        response.name == model.name,
        response.description == model.description,
        response.image == model.architecture.input_modalities@.contains(Modality::Image),
        response.reasoning == model.supported_parameters@.contains(Parameter::Reasoning),
{
    let mut image = false;
    let mut i: usize = 0;
    while i < model.architecture.input_modalities.len()
        invariant
            i <= model.architecture.input_modalities.len(),
            image == model.architecture.input_modalities@.take(i as int).contains(Modality::Image),
        decreases model.architecture.input_modalities.len() - i,
    {
        let ghost seen = model.architecture.input_modalities@.take(i as int);
        let ghost next = model.architecture.input_modalities@.take(i + 1);
        assert(next == seen.push(model.architecture.input_modalities@[i as int]));
        let found = match model.architecture.input_modalities[i] {
            Modality::Image => true,
            _ => false,
        };
        proof {
            if seen.contains(Modality::Image) {
                let k = choose|k: int| 0 <= k < seen.len() && seen[k] == Modality::Image;
                assert(next[k] == Modality::Image);
            }
            if found {
                assert(next[i as int] == Modality::Image);
            }
        }
        image = image || found;
        i += 1;
    }
    assert(model.architecture.input_modalities@.take(
        model.architecture.input_modalities.len() as int,
    ) == model.architecture.input_modalities@);
    let mut reasoning = false;
    let mut j: usize = 0;
    while j < model.supported_parameters.len()
        invariant
            j <= model.supported_parameters.len(),
            reasoning == model.supported_parameters@.take(j as int).contains(Parameter::Reasoning),
        decreases model.supported_parameters.len() - j,
    {
        let ghost seen = model.supported_parameters@.take(j as int);
        let ghost next = model.supported_parameters@.take(j + 1);
        assert(next == seen.push(model.supported_parameters@[j as int]));
        let found = match model.supported_parameters[j] {
            Parameter::Reasoning => true,
            _ => false,
        };
        proof {
            if seen.contains(Parameter::Reasoning) {
                let k = choose|k: int| 0 <= k < seen.len() && seen[k] == Parameter::Reasoning;
                assert(next[k] == Parameter::Reasoning);
            }
            if found {
                assert(next[j as int] == Parameter::Reasoning);
            }
        }
        reasoning = reasoning || found;
        j += 1;
    }
    assert(model.supported_parameters@.take(model.supported_parameters.len() as int)
        == model.supported_parameters@);
    ModelResponse {
        id: model.id,
        slug: model.slug,
        name: model.name,
        description: model.description,
        image,
        reasoning,
    }
}

} // verus!

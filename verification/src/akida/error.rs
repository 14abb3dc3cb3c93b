//! AKD1500-specific validation errors.

use vstd::prelude::*;
use crate::backend_api::error::BackendError;
use crate::text::{decimal_digits, push_decimal};

verus! {

/// AKD1500-specific validation errors. A caller holding a [`BackendError`]
/// sees one as [`BackendError::Execution`] carrying the full message.
#[derive(Debug, Clone, PartialEq, Eq)]
pub enum AkidaError {
    /// E0401: a LIF layer is present; AKD1500 implements bounded ReLU, not
    /// LIF. `threshold` and `alpha` are the layer's values as rendered text.
    LifNotSupported { index: usize, threshold: String, alpha: String, reset: String },
    /// E0402: synaptic delays are present; AKD1500 has no temporal neural
    /// processors.
    DelaysNotSupported { index: usize, encoding: String },
    /// E0403: non-finite (NaN / Inf) values in the weights.
    NonFiniteWeights { index: usize, count: usize },
    /// E0404: the artifact was compiled for another target.
    WrongTarget { actual_target: String },
    /// E0407: temporal input (T > 1) passed to a single-frame stateless
    /// backend.
    TemporalInputNotSupported { batch: usize, timesteps: usize, features: usize },
}

/// The rendered message of a [`AkidaError`].
pub open spec fn akida_error_message(e: AkidaError) -> Seq<char> {
    match e {
        AkidaError::LifNotSupported { index, threshold, alpha, reset } => "E0401: layer["@
            + decimal_digits(index as nat)
            + "] type=\"lif\" cannot be mapped to akida-akd1500.\nObserved: .thx layer "@
            + decimal_digits(index as nat)
            + " has type \"lif\" with threshold="@
            + threshold@
            + ", alpha="@
            + alpha@
            + ", reset=\""@
            + reset@
            + "\".\nWhy: AKD1500 implements Akida 1.0. Akida 1.0's activation is bounded ReLU applied per-inference-call to the integer dot product. It has no membrane potential, no exponential leak (alpha term), and no spike-triggered reset. The leaky integrate-and-fire dynamics encoded in this layer do not exist in the hardware.\nWhat to do: (a) Use the 'sim' backend for SNN simulation. (b) If you want AKD1500 inference, re-design the model without LIF layers using the CNN workflow described in the BrainChip documentation. There is no lossless conversion from LIF to bounded-ReLU; they are different computational models.\nDocs: https://docs.thrindex.com/errors/E0401"@,
        AkidaError::DelaysNotSupported { index, encoding } => "E0402: layer["@
            + decimal_digits(index as nat)
            + "] has synaptic delays but akida-akd1500 declares native_delay_max_steps=0.\nObserved: .thx layer "@
            + decimal_digits(index as nat)
            + " has \""@
            + encoding@
            + "\" delay encoding; delay_fallback=Reject per capability descriptor.\nWhy: AKD1500 is an Akida 1.0 device. Temporal Neural Processors (TNP) that support buffered or recurrent delay processing are an Akida 2.0 feature not present on AKD1500. There is no mechanism to emulate per-synapse delays in a single-frame feedforward model.\nWhat to do: Retrain without delays, or target a backend that supports them. The 'sim' backend supports delays up to u16::MAX steps (native_delay_max_steps=65535, delay_fallback=Emulate).\nDocs: https://docs.thrindex.com/errors/E0402"@,
        AkidaError::NonFiniteWeights { index, count } => "E0403: layer["@
            + decimal_digits(index as nat)
            + "] weights_b64 contains non-finite values.\nObserved: "@
            + decimal_digits(count as nat)
            + " NaN or Inf values found in decoded weight tensor.\nWhy: AKD1500 requires integer-quantizable weights. Quantization of non-finite floats is undefined and would produce silent garbage output.\nWhat to do: Check the training pipeline for numerical instability. Re-export the model with finite weights.\nDocs: https://docs.thrindex.com/errors/E0403"@,
        AkidaError::WrongTarget { actual_target } => "E0404: .thx artifact was compiled for target=\""@
            + actual_target@
            + "\", not \"akida-akd1500\".\nObserved: metadata.target = \""@
            + actual_target@
            + "\".\nWhy: A .thx artifact carries the target it was compiled for. Running it on a different backend without recompilation may produce incorrect results because resolved constants (alpha, dt_ms) are target-specific.\nWhat to do: Recompile with --target akida-akd1500:\n    thrindex build --target akida-akd1500 model.py\nDocs: https://docs.thrindex.com/errors/E0404"@,
        AkidaError::TemporalInputNotSupported { batch, timesteps, features } => "E0407: run_batch received inputs with T="@
            + decimal_digits(timesteps as nat)
            + " timesteps per sample; akida-akd1500 requires T=1.\nObserved: inputs shape [batch="@
            + decimal_digits(batch as nat)
            + ", T="@
            + decimal_digits(timesteps as nat)
            + ", features="@
            + decimal_digits(features as nat)
            + "]; T > 1.\nWhy: AKD1500 processes one spatial frame per model.forward() call. It holds no temporal state between calls: there is no membrane potential that accumulates across timesteps, no recurrent architecture, and no frame-to-frame buffering. Iterating T frames independently through the same stateless model produces T independent feedforward responses. This is NOT equivalent to T timesteps of SNN temporal dynamics: any model whose behaviour depends on cross-timestep membrane accumulation will produce silently incorrect output rather than a recognisable error. E0407 is raised explicitly to prevent that silent failure.\nWhat to do: Pass exactly one timestep frame per sample: inputs shape [batch, 1, features]. AKD1500 performs spatial (not temporal) inference; the 'timesteps' dimension must always be 1. For temporal SNN inference, use the 'sim' backend.\nDocs: https://docs.thrindex.com/errors/E0407"@,
    }
}

impl AkidaError {
    /// The rendered message: what happened, why, how to fix it, and where
    /// the error code is documented.
    pub fn message(&self) -> (m: String)
        ensures
            m@ == akida_error_message(*self),
    {
        let mut s = String::new();
        match self {
            AkidaError::LifNotSupported { index, threshold, alpha, reset } => {
                s.append("E0401: layer[");
                push_decimal(&mut s, *index as u64);
                s.append("] type=\"lif\" cannot be mapped to akida-akd1500.\nObserved: .thx layer ");
                push_decimal(&mut s, *index as u64);
                s.append(" has type \"lif\" with threshold=");
                s.append(threshold.as_str());
                s.append(", alpha=");
                s.append(alpha.as_str());
                s.append(", reset=\"");
                s.append(reset.as_str());
                s.append("\".\nWhy: AKD1500 implements Akida 1.0. Akida 1.0's activation is bounded ReLU applied per-inference-call to the integer dot product. It has no membrane potential, no exponential leak (alpha term), and no spike-triggered reset. The leaky integrate-and-fire dynamics encoded in this layer do not exist in the hardware.\nWhat to do: (a) Use the 'sim' backend for SNN simulation. (b) If you want AKD1500 inference, re-design the model without LIF layers using the CNN workflow described in the BrainChip documentation. There is no lossless conversion from LIF to bounded-ReLU; they are different computational models.\nDocs: https://docs.thrindex.com/errors/E0401");
            },
            AkidaError::DelaysNotSupported { index, encoding } => {
                s.append("E0402: layer[");
                push_decimal(&mut s, *index as u64);
                s.append("] has synaptic delays but akida-akd1500 declares native_delay_max_steps=0.\nObserved: .thx layer ");
                push_decimal(&mut s, *index as u64);
                s.append(" has \"");
                s.append(encoding.as_str());
                s.append("\" delay encoding; delay_fallback=Reject per capability descriptor.\nWhy: AKD1500 is an Akida 1.0 device. Temporal Neural Processors (TNP) that support buffered or recurrent delay processing are an Akida 2.0 feature not present on AKD1500. There is no mechanism to emulate per-synapse delays in a single-frame feedforward model.\nWhat to do: Retrain without delays, or target a backend that supports them. The 'sim' backend supports delays up to u16::MAX steps (native_delay_max_steps=65535, delay_fallback=Emulate).\nDocs: https://docs.thrindex.com/errors/E0402");
            },
            AkidaError::NonFiniteWeights { index, count } => {
                s.append("E0403: layer[");
                push_decimal(&mut s, *index as u64);
                s.append("] weights_b64 contains non-finite values.\nObserved: ");
                push_decimal(&mut s, *count as u64);
                s.append(" NaN or Inf values found in decoded weight tensor.\nWhy: AKD1500 requires integer-quantizable weights. Quantization of non-finite floats is undefined and would produce silent garbage output.\nWhat to do: Check the training pipeline for numerical instability. Re-export the model with finite weights.\nDocs: https://docs.thrindex.com/errors/E0403");
            },
            AkidaError::WrongTarget { actual_target } => {
                s.append("E0404: .thx artifact was compiled for target=\"");
                s.append(actual_target.as_str());
                s.append("\", not \"akida-akd1500\".\nObserved: metadata.target = \"");
                s.append(actual_target.as_str());
                s.append("\".\nWhy: A .thx artifact carries the target it was compiled for. Running it on a different backend without recompilation may produce incorrect results because resolved constants (alpha, dt_ms) are target-specific.\nWhat to do: Recompile with --target akida-akd1500:\n    thrindex build --target akida-akd1500 model.py\nDocs: https://docs.thrindex.com/errors/E0404");
            },
            AkidaError::TemporalInputNotSupported { batch, timesteps, features } => {
                s.append("E0407: run_batch received inputs with T=");
                push_decimal(&mut s, *timesteps as u64);
                s.append(" timesteps per sample; akida-akd1500 requires T=1.\nObserved: inputs shape [batch=");
                push_decimal(&mut s, *batch as u64);
                s.append(", T=");
                push_decimal(&mut s, *timesteps as u64);
                s.append(", features=");
                push_decimal(&mut s, *features as u64);
                s.append("]; T > 1.\nWhy: AKD1500 processes one spatial frame per model.forward() call. It holds no temporal state between calls: there is no membrane potential that accumulates across timesteps, no recurrent architecture, and no frame-to-frame buffering. Iterating T frames independently through the same stateless model produces T independent feedforward responses. This is NOT equivalent to T timesteps of SNN temporal dynamics: any model whose behaviour depends on cross-timestep membrane accumulation will produce silently incorrect output rather than a recognisable error. E0407 is raised explicitly to prevent that silent failure.\nWhat to do: Pass exactly one timestep frame per sample: inputs shape [batch, 1, features]. AKD1500 performs spatial (not temporal) inference; the 'timesteps' dimension must always be 1. For temporal SNN inference, use the 'sim' backend.\nDocs: https://docs.thrindex.com/errors/E0407");
            },
        }
        s
    }

    /// The backend error a caller sees: an execution error carrying this
    /// error's full message.
    pub fn into_backend_error(self) -> (e: BackendError)
        ensures
            e matches BackendError::Execution { detail } && detail@ == akida_error_message(self),
    {
        let detail = self.message();
        BackendError::Execution { detail }
    }
}

} // verus!

//! Capability negotiation: what a backend asks of its driver, held against
//! what the driver offers.
//!
//! A name is the bytes of an extension's or a layer's name, without a
//! terminator. Negotiation reads the driver's lists as sets: neither the
//! order of a list nor a name that occurs twice changes the outcome.

use vstd::prelude::*;

use super::Error;

verus! {

/// The names that a list holds, in the list's order.
pub open spec fn names(list: Seq<Vec<u8>>) -> Seq<Seq<u8>> {
    Seq::new(list.len(), |i: int| list[i]@)
}

/// What a backend asks of its driver.
pub struct Request {
    /// Layers without which the backend cannot work.
    pub required_layers: Vec<Vec<u8>>,
    /// Extensions without which the backend cannot work.
    pub required_extensions: Vec<Vec<u8>>,
    /// The layer that validates the use of the API.
    pub validation_layer: Vec<u8>,
    /// The extension that carries the driver's diagnostics.
    pub debug_extension: Vec<u8>,
}

pub struct RequestView {
    pub required_layers: Seq<Seq<u8>>,
    pub required_extensions: Seq<Seq<u8>>,
    pub validation_layer: Seq<u8>,
    pub debug_extension: Seq<u8>,
}

impl View for Request {
    type V = RequestView;

    open spec fn view(&self) -> RequestView {
        RequestView {
            required_layers: names(self.required_layers@),
            required_extensions: names(self.required_extensions@),
            validation_layer: self.validation_layer@,
            debug_extension: self.debug_extension@,
        }
    }
}

/// What a driver offers, as it was enumerated.
pub struct Supported {
    pub layers: Vec<Vec<u8>>,
    pub extensions: Vec<Vec<u8>>,
}

pub struct SupportedView {
    pub layers: Seq<Seq<u8>>,
    pub extensions: Seq<Seq<u8>>,
}

impl View for Supported {
    type V = SupportedView;

    open spec fn view(&self) -> SupportedView {
        SupportedView { layers: names(self.layers@), extensions: names(self.extensions@) }
    }
}

/// Which of the optional capabilities are in effect.
#[derive(Debug, Clone, Copy, PartialEq, Eq, Structural)]
pub struct Capabilities {
    /// The validation layer is enabled.
    pub validation: bool,
    /// The diagnostics extension is enabled.
    pub debug: bool,
}

/// What is handed to the driver when the native instance is created.
pub struct Enabled {
    pub layers: Vec<Vec<u8>>,
    pub extensions: Vec<Vec<u8>>,
    pub active: Capabilities,
}

pub struct EnabledView {
    pub layers: Seq<Seq<u8>>,
    pub extensions: Seq<Seq<u8>>,
    pub active: Capabilities,
}

impl View for Enabled {
    type V = EnabledView;

    open spec fn view(&self) -> EnabledView {
        EnabledView {
            layers: names(self.layers@),
            extensions: names(self.extensions@),
            active: self.active,
        }
    }
}

/// Every required name is among the offered ones.
pub open spec fn covers(offered: Seq<Seq<u8>>, required: Seq<Seq<u8>>) -> bool {
    forall|i: int| 0 <= i < required.len() ==> offered.contains(#[trigger] required[i])
}

/// `list` with `name` behind it if `wanted`, else `list`.
pub open spec fn with_optional(list: Seq<Seq<u8>>, name: Seq<u8>, wanted: bool) -> Seq<Seq<u8>> {
    if wanted {
        list.push(name)
    } else {
        list
    }
}

/// The outcome of a negotiation.
///
/// A missing required layer is reported before a missing required
/// extension. An optional capability is in effect when it was asked for and
/// the driver offers it; its name then follows the required ones.
pub open spec fn negotiated(
    validation: bool,
    debug: bool,
    request: RequestView,
    supported: SupportedView,
) -> core::result::Result<EnabledView, Error> {
    if !covers(supported.layers, request.required_layers) {
        Err(Error::LayerNotPresent)
    } else if !covers(supported.extensions, request.required_extensions) {
        Err(Error::ExtensionNotPresent)
    } else {
        let active = Capabilities {
            validation: validation && supported.layers.contains(request.validation_layer),
            debug: debug && supported.extensions.contains(request.debug_extension),
        };
        Ok(
            EnabledView {
                layers: with_optional(
                    request.required_layers,
                    request.validation_layer,
                    active.validation,
                ),
                extensions: with_optional(
                    request.required_extensions,
                    request.debug_extension,
                    active.debug,
                ),
                active,
            },
        )
    }
}

/// The outcome of a negotiation as the library hands it out.
pub open spec fn outcome_view(outcome: core::result::Result<Enabled, Error>) -> core::result::Result<
    EnabledView,
    Error,
> {
    match outcome {
        Ok(enabled) => Ok(enabled@),
        Err(error) => Err(error),
    }
}

/// The outcome of a negotiation depends on which names the driver offers,
/// not on their order nor on how often one occurs.
pub proof fn negotiation_reads_sets(
    validation: bool,
    debug: bool,
    request: RequestView,
    first: SupportedView,
    second: SupportedView,
)
    requires
        forall|name: Seq<u8>| first.layers.contains(name) <==> second.layers.contains(name),
        forall|name: Seq<u8>| first.extensions.contains(name) <==> second.extensions.contains(name),
    ensures
        negotiated(validation, debug, request, first) == negotiated(
            validation,
            debug,
            request,
            second,
        ),
{
    assert(covers(first.layers, request.required_layers) == covers(
        second.layers,
        request.required_layers,
    ));
    assert(covers(first.extensions, request.required_extensions) == covers(
        second.extensions,
        request.required_extensions,
    ));
}

/// Where the driver lacks a required name the negotiation fails: with
/// `LayerNotPresent` for a layer, and with `ExtensionNotPresent` for an
/// extension when no layer is missing.
pub proof fn missing_required_fails(
    validation: bool,
    debug: bool,
    request: RequestView,
    supported: SupportedView,
    at: int,
)
    ensures
        0 <= at < request.required_layers.len() && !supported.layers.contains(
            request.required_layers[at],
        ) ==> negotiated(validation, debug, request, supported) == Err::<EnabledView, Error>(
            Error::LayerNotPresent,
        ),
        0 <= at < request.required_extensions.len() && !supported.extensions.contains(
            request.required_extensions[at],
        ) ==> negotiated(validation, debug, request, supported) == Err::<EnabledView, Error>(
            if covers(supported.layers, request.required_layers) {
                Error::ExtensionNotPresent
            } else {
                Error::LayerNotPresent
            },
        ),
{
}

/// Where the driver offers every required name the negotiation succeeds,
/// whatever was asked for beyond them: an optional capability is in effect
/// exactly when it was asked for and is offered, and what is enabled is
/// the required names and those of the capabilities in effect.
pub proof fn missing_optional_is_no_failure(
    validation: bool,
    debug: bool,
    request: RequestView,
    supported: SupportedView,
)
    requires
        covers(supported.layers, request.required_layers),
        covers(supported.extensions, request.required_extensions),
    ensures
        negotiated(validation, debug, request, supported) is Ok,
        ({
            let enabled = negotiated(validation, debug, request, supported)->Ok_0;
            &&& enabled.active.validation == (validation && supported.layers.contains(
                request.validation_layer,
            ))
            &&& enabled.active.debug == (debug && supported.extensions.contains(
                request.debug_extension,
            ))
            &&& !enabled.active.validation ==> enabled.layers == request.required_layers
            &&& !enabled.active.debug ==> enabled.extensions == request.required_extensions
        }),
{
}

pub fn same_name(left: &Vec<u8>, right: &Vec<u8>) -> (same: bool)
    ensures
        same == (left@ == right@),
{
    if left.len() != right.len() {
        return false;
    }
    let mut at: usize = 0;
    while at < left.len()
        invariant
            left.len() == right.len(),
            at <= left.len(),
            forall|i: int| 0 <= i < at ==> left@[i] == right@[i],
        decreases left.len() - at,
    {
        if left[at] != right[at] {
            return false;
        }
        at += 1;
    }
    assert(left@ =~= right@);
    true
}

/// Whether the driver's list holds `name`.
pub fn offers(offered: &Vec<Vec<u8>>, name: &Vec<u8>) -> (found: bool)
    ensures
        found == names(offered@).contains(name@),
{
    let mut at: usize = 0;
    while at < offered.len()
        invariant
            at <= offered.len(),
            forall|i: int| 0 <= i < at ==> names(offered@)[i] != name@,
        decreases offered.len() - at,
    {
        if same_name(&offered[at], name) {
            assert(names(offered@)[at as int] == name@);
            return true;
        }
        at += 1;
    }
    false
}

/// Whether the driver's list holds every required name.
pub fn offers_all(offered: &Vec<Vec<u8>>, required: &Vec<Vec<u8>>) -> (all: bool)
    ensures
        all == covers(names(offered@), names(required@)),
{
    let mut at: usize = 0;
    while at < required.len()
        invariant
            at <= required.len(),
            forall|i: int|
                0 <= i < at ==> names(offered@).contains(#[trigger] names(required@)[i]),
        decreases required.len() - at,
    {
        if !offers(offered, &required[at]) {
            assert(!names(offered@).contains(names(required@)[at as int]));
            return false;
        }
        at += 1;
    }
    true
}

/// Holds what a backend asks against what its driver offers.
///
/// Fails before anything native exists: with `LayerNotPresent` where a
/// required layer is missing, else with `ExtensionNotPresent` where a
/// required extension is missing. An optional capability that was asked for
/// and is not offered is left out and reported as inactive.
pub fn negotiate(validation: bool, debug: bool, request: Request, supported: &Supported) -> (outcome:
    core::result::Result<Enabled, Error>)
    ensures
        outcome_view(outcome) == negotiated(validation, debug, request@, supported@),
{
    if !offers_all(&supported.layers, &request.required_layers) {
        return Err(Error::LayerNotPresent);
    }
    if !offers_all(&supported.extensions, &request.required_extensions) {
        return Err(Error::ExtensionNotPresent);
    }
    let active = Capabilities {
        validation: validation && offers(&supported.layers, &request.validation_layer),
        debug: debug && offers(&supported.extensions, &request.debug_extension),
    };
    let ghost asked = request@;
    let Request { required_layers, required_extensions, validation_layer, debug_extension } =
        request;
    let mut layers = required_layers;
    let mut extensions = required_extensions;
    if active.validation {
        layers.push(validation_layer);
    }
    if active.debug {
        extensions.push(debug_extension);
    }
    let enabled = Enabled { layers, extensions, active };
    assert(enabled@.layers =~= with_optional(
        asked.required_layers,
        asked.validation_layer,
        active.validation,
    ));
    assert(enabled@.extensions =~= with_optional(
        asked.required_extensions,
        asked.debug_extension,
        active.debug,
    ));
    Ok(enabled)
}

} // verus!

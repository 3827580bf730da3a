use iglo::rhi::capability::{
    negotiate, offers, offers_all, same_name, Capabilities, Request, Supported,
};
use iglo::rhi::Error;

fn name(text: &str) -> Vec<u8> {
    text.as_bytes().to_vec()
}

fn list(names: &[&str]) -> Vec<Vec<u8>> {
    names.iter().map(|text| name(text)).collect()
}

fn request() -> Request {
    Request {
        required_layers: list(&["layer_a"]),
        required_extensions: list(&["ext_a", "ext_b"]),
        validation_layer: name("layer_v"),
        debug_extension: name("ext_d"),
    }
}

fn everything() -> Supported {
    Supported {
        layers: list(&["layer_v", "layer_a", "layer_x"]),
        extensions: list(&["ext_x", "ext_b", "ext_d", "ext_a"]),
    }
}

#[test]
fn same_name_compares_bytes() {
    assert!(same_name(&name("abc"), &name("abc")));
    assert!(same_name(&name(""), &name("")));
    assert!(!same_name(&name("abc"), &name("abd")));
    assert!(!same_name(&name("abc"), &name("ab")));
    assert!(!same_name(&name(""), &name("a")));
}

#[test]
fn offers_finds_a_name_wherever_it_stands() {
    let offered = list(&["one", "two", "three"]);
    assert!(offers(&offered, &name("one")));
    assert!(offers(&offered, &name("three")));
    assert!(!offers(&offered, &name("four")));
    assert!(!offers(&offered, &name("tw")));
    assert!(!offers(&Vec::new(), &name("one")));
}

#[test]
fn offers_all_wants_every_name() {
    let offered = list(&["one", "two", "three"]);
    assert!(offers_all(&offered, &list(&["three", "one"])));
    assert!(offers_all(&offered, &Vec::new()));
    assert!(offers_all(&Vec::new(), &Vec::new()));
    assert!(!offers_all(&offered, &list(&["one", "four"])));
    assert!(!offers_all(&Vec::new(), &list(&["one"])));
}

#[test]
fn everything_asked_and_offered_is_enabled() {
    let enabled = negotiate(true, true, request(), &everything()).unwrap();
    assert_eq!(enabled.layers, list(&["layer_a", "layer_v"]));
    assert_eq!(enabled.extensions, list(&["ext_a", "ext_b", "ext_d"]));
    assert_eq!(enabled.active, Capabilities { validation: true, debug: true });
}

#[test]
fn nothing_optional_is_enabled_unasked() {
    let enabled = negotiate(false, false, request(), &everything()).unwrap();
    assert_eq!(enabled.layers, list(&["layer_a"]));
    assert_eq!(enabled.extensions, list(&["ext_a", "ext_b"]));
    assert_eq!(enabled.active, Capabilities { validation: false, debug: false });
}

#[test]
fn one_optional_capability_does_not_bring_the_other() {
    let enabled = negotiate(true, false, request(), &everything()).unwrap();
    assert_eq!(enabled.layers, list(&["layer_a", "layer_v"]));
    assert_eq!(enabled.extensions, list(&["ext_a", "ext_b"]));
    assert_eq!(enabled.active, Capabilities { validation: true, debug: false });
    let enabled = negotiate(false, true, request(), &everything()).unwrap();
    assert_eq!(enabled.layers, list(&["layer_a"]));
    assert_eq!(enabled.extensions, list(&["ext_a", "ext_b", "ext_d"]));
    assert_eq!(enabled.active, Capabilities { validation: false, debug: true });
}

#[test]
fn a_missing_optional_capability_is_left_out() {
    let supported = Supported { layers: list(&["layer_a"]), extensions: list(&["ext_a", "ext_b"]) };
    let enabled = negotiate(true, true, request(), &supported).unwrap();
    assert_eq!(enabled.layers, list(&["layer_a"]));
    assert_eq!(enabled.extensions, list(&["ext_a", "ext_b"]));
    assert_eq!(enabled.active, Capabilities { validation: false, debug: false });
}

#[test]
fn a_missing_required_layer_fails() {
    let supported = Supported { layers: list(&["layer_v"]), extensions: list(&["ext_a", "ext_b"]) };
    assert!(matches!(negotiate(true, true, request(), &supported), Err(Error::LayerNotPresent)));
    assert!(matches!(negotiate(false, false, request(), &supported), Err(Error::LayerNotPresent)));
}

#[test]
fn a_missing_required_extension_fails() {
    let supported = Supported { layers: list(&["layer_a"]), extensions: list(&["ext_a", "ext_d"]) };
    assert!(matches!(
        negotiate(true, true, request(), &supported),
        Err(Error::ExtensionNotPresent)
    ));
    let nothing = Supported { layers: list(&["layer_a"]), extensions: Vec::new() };
    assert!(matches!(
        negotiate(false, false, request(), &nothing),
        Err(Error::ExtensionNotPresent)
    ));
}

#[test]
fn a_missing_layer_is_reported_before_a_missing_extension() {
    let supported = Supported { layers: Vec::new(), extensions: Vec::new() };
    assert!(matches!(negotiate(true, true, request(), &supported), Err(Error::LayerNotPresent)));
}

#[test]
fn the_order_of_the_offer_does_not_matter() {
    let forward = everything();
    let backward = Supported {
        layers: list(&["layer_x", "layer_a", "layer_v", "layer_a"]),
        extensions: list(&["ext_a", "ext_d", "ext_d", "ext_b", "ext_x"]),
    };
    for (validation, debug) in [(false, false), (false, true), (true, false), (true, true)] {
        let first = negotiate(validation, debug, request(), &forward).unwrap();
        let second = negotiate(validation, debug, request(), &backward).unwrap();
        assert_eq!(first.layers, second.layers);
        assert_eq!(first.extensions, second.extensions);
        assert_eq!(first.active, second.active);
    }
}

#[test]
fn a_request_without_requirements_always_succeeds() {
    let request = Request {
        required_layers: Vec::new(),
        required_extensions: Vec::new(),
        validation_layer: name("layer_v"),
        debug_extension: name("ext_d"),
    };
    let supported = Supported { layers: Vec::new(), extensions: Vec::new() };
    let enabled = negotiate(true, true, request, &supported).unwrap();
    assert!(enabled.layers.is_empty());
    assert!(enabled.extensions.is_empty());
    assert_eq!(enabled.active, Capabilities { validation: false, debug: false });
}

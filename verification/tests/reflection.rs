use rustclr::error::ClrError;
use rustclr::reflect::{
    collect_members, collect_types, enumeration_flags, invocation_flags, method, method_signature,
    prepare_invocation, selector_admits, BindingFlags, Invocation, MethodDesc,
};
use rustclr::value::{ClrValue, VT_VARIANT};

fn overloaded_type() -> Vec<MethodDesc> {
    vec![
        MethodDesc {
            name: String::from("ToString"),
            display: String::from("System.String ToString()"),
        },
        MethodDesc {
            name: String::from("Run"),
            display: String::from("Void Run()"),
        },
        MethodDesc {
            name: String::from("Run"),
            display: String::from("Void Run(System.String)"),
        },
    ]
}

#[test]
fn signature_resolution_distinguishes_overloads() {
    let methods = overloaded_type();
    assert_eq!(method_signature(&methods, "Void Run()"), Ok(1));
    assert_eq!(method_signature(&methods, "Void Run(System.String)"), Ok(2));
}

#[test]
fn signature_resolution_reports_missing_member() {
    let methods = overloaded_type();
    assert_eq!(
        method_signature(&methods, "Void Run(Int32)"),
        Err(ClrError::MethodNotFound)
    );
}

#[test]
fn name_resolution_returns_first_match() {
    let methods = overloaded_type();
    assert_eq!(method(&methods, "Run"), Ok(1));
    assert_eq!(method(&methods, "ToString"), Ok(0));
    assert_eq!(method(&methods, "Missing"), Err(ClrError::MethodNotFound));
}

#[test]
fn invocation_selector_values() {
    assert_eq!(invocation_flags(Invocation::Static), 312);
    assert_eq!(invocation_flags(Invocation::Instance), 308);
    assert_eq!(enumeration_flags(), 124);
}

#[test]
fn broadest_selector_admits_every_probe_result() {
    let combos = [(true, true), (true, false), (false, true), (false, false)];
    for (is_public, is_static) in combos {
        let visibility = if is_public {
            BindingFlags::Public.bits()
        } else {
            BindingFlags::NonPublic.bits()
        };
        let kind = if is_static {
            BindingFlags::Static.bits()
        } else {
            BindingFlags::Instance.bits()
        };
        let probe = visibility + kind;
        assert!(selector_admits(probe, is_public, is_static));
        assert!(selector_admits(enumeration_flags(), is_public, is_static));
    }
}

#[test]
fn narrow_selector_excludes_other_members() {
    let public_static = BindingFlags::Public.bits() + BindingFlags::Static.bits();
    assert!(selector_admits(public_static, true, true));
    assert!(!selector_admits(public_static, false, true));
    assert!(!selector_admits(public_static, true, false));
}

#[test]
fn invocation_defaults_receiver_and_packs_arguments() {
    let r = prepare_invocation(
        "SetOut",
        None,
        Some(vec![ClrValue::Object(7)]),
        Invocation::Static,
    );
    assert_eq!(r.method_name, "SetOut");
    assert_eq!(r.flags, 312);
    assert_eq!(r.instance, ClrValue::Empty);
    let packed = r.args.expect("arguments were supplied");
    assert_eq!(packed.vt, VT_VARIANT);
    assert_eq!(packed.elements, vec![ClrValue::Object(7)]);
}

#[test]
fn invocation_keeps_receiver_and_absent_arguments() {
    let r = prepare_invocation(
        "ToString",
        Some(ClrValue::Object(9)),
        None,
        Invocation::Instance,
    );
    assert_eq!(r.flags, 308);
    assert_eq!(r.instance, ClrValue::Object(9));
    assert!(r.args.is_none());
}

#[test]
fn member_enumeration_keeps_every_element() {
    let raw = vec![
        Some(MethodDesc {
            name: String::from("A"),
            display: String::from("Void A()"),
        }),
        Some(MethodDesc {
            name: String::from("B"),
            display: String::from("Void B()"),
        }),
    ];
    let members = collect_members(&raw).expect("all elements fetched");
    assert_eq!(members.len(), 2);
    assert_eq!(members[0].name, "A");
    assert_eq!(members[1].display, "Void B()");
}

#[test]
fn member_enumeration_aborts_on_missing_element() {
    let raw = vec![
        Some(MethodDesc {
            name: String::from("A"),
            display: String::from("Void A()"),
        }),
        None,
    ];
    assert_eq!(
        collect_members(&raw),
        Err(ClrError::CastingError("_MethodInfo"))
    );
}

#[test]
fn type_enumeration_collects_names_and_aborts_on_missing() {
    let raw = vec![Some(String::from("Program")), Some(String::from("Helper"))];
    assert_eq!(
        collect_types(&raw),
        Ok(vec![String::from("Program"), String::from("Helper")])
    );
    let broken = vec![Some(String::from("Program")), None];
    assert_eq!(collect_types(&broken), Err(ClrError::CastingError("_Type")));
}

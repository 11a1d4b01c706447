use proj::area::area_bounds_known;
use proj::handle::{direction, NativeHandle, Transformation, PJ_FWD, PJ_INV};
use proj::options::{matcher_options, projjson_option_strings, projjson_options, wkt_option_strings, wkt_options, wkt_type};
use proj::search_path::{search_path_entries, split_paths, UNIX_PATH_SEPARATOR, WINDOWS_PATH_SEPARATOR};
use proj::{Pj, PjCreateError, Proj, ProjBuilder, ProjCreateError, ProjError, ThreadContext, TransformError};
use proj::{WktOptions, WktOutputAxis, WktVersion};
use std::rc::Rc;

#[test]
fn wkt_options_in_order() {
    let opts = WktOptions {
        multiline: Some(false),
        indentation_width: Some(2),
        output_axis: Some(WktOutputAxis::Auto),
        strict: Some(true),
        allow_ellipsoidal_height_as_vertical_crs: Some(false),
        allow_linunit_node: Some(true),
    };
    assert_eq!(
        wkt_option_strings(&opts),
        vec![
            "MULTILINE=NO",
            "INDENTATION_WIDTH=2",
            "OUTPUT_AXIS=AUTO",
            "STRICT=YES",
            "ALLOW_ELLIPSOIDAL_HEIGHT_AS_VERTICAL_CRS=NO",
            "ALLOW_LINUNIT_NODE=YES",
        ]
    );
    let only = WktOptions { multiline: Some(false), ..Default::default() };
    assert_eq!(wkt_option_strings(&only), vec!["MULTILINE=NO"]);
    assert!(wkt_option_strings(&WktOptions::default()).is_empty());
}

#[test]
fn wkt_options_array_is_never_missing() {
    assert!(wkt_options(&None).unwrap().is_empty());
    assert!(wkt_options(&Some(WktOptions::default())).unwrap().is_empty());
    let a = wkt_options(&Some(WktOptions { output_axis: Some(WktOutputAxis::No), ..Default::default() }))
        .unwrap();
    assert_eq!(a.len(), 1);
    assert_eq!(a.get(0).as_slice(), b"OUTPUT_AXIS=NO");
}

#[test]
fn wkt_type_codes() {
    assert_eq!(wkt_type(None), 2);
    assert_eq!(wkt_type(Some(WktVersion::Wkt2_2015)), 0);
    assert_eq!(wkt_type(Some(WktVersion::Wkt2_2015_Simplified)), 1);
    assert_eq!(wkt_type(Some(WktVersion::Wkt2_2019)), 2);
    assert_eq!(wkt_type(Some(WktVersion::Wkt2_2019_Simplified)), 3);
    assert_eq!(wkt_type(Some(WktVersion::Wkt1_Gdal)), 4);
    assert_eq!(wkt_type(Some(WktVersion::Wkt1_Esri)), 5);
}

#[test]
fn projjson_options_in_order() {
    let schema = "https://proj.org/schemas/v0.7/projjson.schema.json";
    assert_eq!(
        projjson_option_strings(Some(true), Some(4), Some(schema)),
        vec![
            "MULTILINE=YES".to_string(),
            "INDENTATION_WIDTH=4".to_string(),
            format!("SCHEMA={schema}"),
        ]
    );
    assert!(projjson_options(None, None, None).unwrap().is_empty());
    assert!(matches!(projjson_options(None, None, Some("a\0b")), Err(ProjError::Creation(_))));
}

#[test]
fn area_sentinel_patterns() {
    assert_eq!(area_bounds_known(true, [false; 4]).unwrap(), true);
    assert_eq!(area_bounds_known(true, [true; 4]).unwrap(), false);
    assert_eq!(area_bounds_known(false, [false; 4]).unwrap(), false);
    assert!(matches!(area_bounds_known(true, [true, false, false, false]), Err(ProjError::UnknownAreaOfUse)));
    assert!(matches!(area_bounds_known(true, [true, true, true, false]), Err(ProjError::UnknownAreaOfUse)));
}

#[test]
fn test_init_error_nul() {
    match Proj::definition_bytes("\0") {
        Err(ProjCreateError::ArgumentNulError(_)) => (),
        _ => unreachable!(),
    }
}

#[test]
fn test_from_crs_nul_error() {
    match Proj::crs_pair_bytes("\0", "EPSG:4326") {
        Err(ProjCreateError::ArgumentNulError(_)) => (),
        _ => unreachable!(),
    }

    match Proj::crs_pair_bytes("EPSG:4326", "\0") {
        Err(ProjCreateError::ArgumentNulError(_)) => (),
        _ => unreachable!(),
    }
}

#[test]
fn valid_definitions_reach_the_engine_unchanged() {
    assert_eq!(Proj::definition_bytes("EPSG:4326").unwrap(), b"EPSG:4326".to_vec());
    let (s, t) = Proj::crs_pair_bytes("EPSG:2230", "EPSG:26946").unwrap();
    assert_eq!(s, b"EPSG:2230".to_vec());
    assert_eq!(t, b"EPSG:26946".to_vec());
    assert!(matches!(Pj::<ThreadContext>::definition_bytes("+proj=merc\0"), Err(PjCreateError::ArgumentNulError(_))));
    assert!(matches!(Pj::<ThreadContext>::crs_pair_bytes("EPSG:4326", "x\0"), Err(PjCreateError::ArgumentNulError(_))));
}

#[test]
fn pipeline_handle_from_engine_answer() {
    let ctx = Rc::new(ThreadContext::from_raw(0x1000));
    let pj = Pj::from_pj_ptr(ctx.clone(), 0x2000, Ok(String::new())).unwrap();
    assert_eq!(pj.as_ptr(), 0x2000);
    assert_eq!(pj.ctx().as_ptr(), 0x1000);
    match Pj::from_pj_ptr(ctx, 0, Ok("Unknown error".to_string())) {
        Err(PjCreateError::ProjError(m)) => assert_eq!(m, "Unknown error"),
        _ => unreachable!(),
    }
}

#[test]
fn creation_results() {
    assert_eq!(Proj::created(0x10, String::new()).unwrap(), 0x10);
    match Proj::created(0, "crs not found".to_string()) {
        Err(ProjCreateError::ProjError(m)) => assert_eq!(m, "crs not found"),
        _ => unreachable!(),
    }
    assert!(matches!(Proj::metadata_created(0), Err(ProjCreateError::MetadataObjectCreation)));
    assert_eq!(Proj::metadata_created(7).unwrap(), 7);
}

#[test]
fn release_area_then_pipeline_then_context() {
    let p = Proj::from_handles(0x20, 0x10, Some(0x30));
    assert_eq!(
        p.release_order(),
        vec![NativeHandle::Area(0x30), NativeHandle::Pipeline(0x20), NativeHandle::Context(0x10)]
    );
    let q = Proj::from_handles(0x20, 0x10, None);
    assert_eq!(q.release_order(), vec![NativeHandle::Pipeline(0x20), NativeHandle::Context(0x10)]);
    assert_eq!(q.pipeline_ptr(), 0x20);
    assert_eq!(q.context_ptr(), 0x10);
    assert_eq!(p.area_ptr(), Some(0x30));
}

#[test]
fn transform_outcomes() {
    assert!(Proj::transform_outcome(Transformation::Conversion, 0, String::new()).is_ok());
    match Proj::transform_outcome(Transformation::Conversion, 2049, "Invalid coordinate".to_string()) {
        Err(ProjError::Conversion(m)) => assert_eq!(m, "Invalid coordinate"),
        _ => unreachable!(),
    }
    assert!(matches!(
        Proj::transform_outcome(Transformation::Projection, 1, String::new()),
        Err(ProjError::Projection(_))
    ));
    // an error does not stick: the next call with a clean error code succeeds
    assert!(Proj::transform_outcome(Transformation::Projection, 0, String::new()).is_ok());
    assert!(Proj::batch_outcome(Transformation::Conversion, 0, 0, String::new()).is_ok());
    assert!(Proj::batch_outcome(Transformation::Projection, 0, 0, String::new()).is_ok());
    assert!(matches!(
        Proj::batch_outcome(Transformation::Projection, 0, 1, String::new()),
        Err(ProjError::Projection(_))
    ));
    match Proj::batch_outcome(Transformation::Conversion, 5, 0, "Invalid coordinate".to_string()) {
        Err(ProjError::Conversion(m)) => assert_eq!(m, "Invalid coordinate"),
        _ => unreachable!(),
    }
    assert!(matches!(
        Proj::batch_outcome(Transformation::Conversion, 0, 1, String::new()),
        Err(ProjError::Conversion(_))
    ));
}

#[test]
fn definition_of_pipeline() {
    assert_eq!(Proj::def(Some("proj=longlat".to_string())).unwrap(), "proj=longlat");
    assert!(matches!(Proj::def(None), Err(ProjError::Definition)));
}

#[test]
fn builder_hands_over_its_context() {
    let mut b = ProjBuilder::from_context(0x100);
    assert_eq!(b.take_context(0x200), 0x100);
    assert_eq!(b.context_ptr(), 0x200);
}

#[test]
fn network_switch_results() {
    assert_eq!(ProjBuilder::network_switch_result(true, 1).unwrap(), 1);
    assert_eq!(ProjBuilder::network_switch_result(false, 0).unwrap(), 0);
    assert!(matches!(ProjBuilder::network_switch_result(true, 0), Err(ProjError::Network)));
    assert!(matches!(ProjBuilder::network_switch_result(false, 1), Err(ProjError::Network)));
    assert!(ProjBuilder::callbacks_result(1).is_ok());
    assert!(matches!(ProjBuilder::callbacks_result(0), Err(ProjError::Network)));
    assert!(ThreadContext::network_switch_applied(true, 1));
    assert!(ThreadContext::network_switch_applied(false, 0));
    assert!(!ThreadContext::network_switch_applied(true, 0));
    assert!(!ThreadContext::network_switch_applied(false, 1));
    assert!(ThreadContext::network_reported_on(1));
    assert!(!ThreadContext::network_reported_on(0));
}

#[test]
fn search_paths_are_split_and_extended() {
    assert_eq!(
        split_paths("/usr/share/proj:/home/u/proj", UNIX_PATH_SEPARATOR),
        vec!["/usr/share/proj", "/home/u/proj"]
    );
    assert_eq!(split_paths("", UNIX_PATH_SEPARATOR), vec![""]);
    assert_eq!(split_paths("a::b:", UNIX_PATH_SEPARATOR), vec!["a", "", "b", ""]);
    assert_eq!(
        split_paths("C:\\proj\\share;D:\\grids", WINDOWS_PATH_SEPARATOR),
        vec!["C:\\proj\\share", "D:\\grids"]
    );
    let w = search_path_entries("C:\\a;C:\\b", WINDOWS_PATH_SEPARATOR, "D:\\c").unwrap();
    assert_eq!(w.len(), 3);
    assert_eq!(w.get(0).as_slice(), b"C:\\a");
    assert_eq!(w.get(1).as_slice(), b"C:\\b");
    assert_eq!(w.get(2).as_slice(), b"D:\\c");
    let a = search_path_entries("/usr/share/proj", UNIX_PATH_SEPARATOR, "/foo").unwrap();
    assert_eq!(a.len(), 2);
    assert_eq!(a.get(0).as_slice(), b"/usr/share/proj");
    assert_eq!(a.get(1).as_slice(), b"/foo");
    assert!(matches!(search_path_entries("/a", UNIX_PATH_SEPARATOR, "/b\0"), Err(ProjError::Creation(_))));
}

#[test]
fn transform_error_wraps_both_kinds() {
    let e: TransformError = ProjError::Definition.into();
    assert!(matches!(e, TransformError::ProjError(ProjError::Definition)));
    let e = TransformError::from(ProjCreateError::MetadataObjectCreation);
    assert!(matches!(e, TransformError::ProjCreateError(ProjCreateError::MetadataObjectCreation)));
}

#[test]
fn directions() {
    assert_eq!(direction(Transformation::Conversion, true), PJ_FWD);
    assert_eq!(direction(Transformation::Conversion, false), PJ_FWD);
    assert_eq!(direction(Transformation::Projection, true), PJ_INV);
    assert_eq!(direction(Transformation::Projection, false), PJ_FWD);
}

#[test]
fn matcher_options_pass_verbatim() {
    assert!(matcher_options(&None).unwrap().is_empty());
    let a = matcher_options(&Some(vec!["AUTHORITY=EPSG", "ALLOW_BALLPARK=NO"])).unwrap();
    assert_eq!(a.len(), 2);
    assert_eq!(a.get(0).as_slice(), b"AUTHORITY=EPSG");
    assert_eq!(a.get(1).as_slice(), b"ALLOW_BALLPARK=NO");
    assert!(matches!(
        matcher_options(&Some(vec!["ACCURACY=1", "BAD\0"])),
        Err(ProjCreateError::ArgumentNulError(_))
    ));
}

#[test]
fn failed_construction_releases_area_then_context() {
    assert_eq!(
        Proj::abandoned(0x10, Some(0x30)),
        vec![NativeHandle::Area(0x30), NativeHandle::Context(0x10)]
    );
    assert_eq!(Proj::abandoned(0x10, None), vec![NativeHandle::Context(0x10)]);
    match Proj::assemble(0, 0x10, Some(0x30), "crs not found".to_string()) {
        Err((ProjCreateError::ProjError(m), handles)) => {
            assert_eq!(m, "crs not found");
            assert_eq!(handles, vec![NativeHandle::Area(0x30), NativeHandle::Context(0x10)]);
        }
        _ => unreachable!(),
    }
    let p = Proj::assemble(0x20, 0x10, None, String::new()).unwrap();
    assert_eq!(p.pipeline_ptr(), 0x20);
    assert_eq!(p.context_ptr(), 0x10);
    assert_eq!(p.area_ptr(), None);
    let b = ProjBuilder::from_context(0x40);
    assert_eq!(b.release_order(), vec![NativeHandle::Context(0x40)]);
}

#[test]
fn projjson_schema_nul_is_the_only_failure() {
    let schema = "https://proj.org/schemas/v0.7/projjson.schema.json";
    let a = projjson_options(Some(true), None, Some(schema)).unwrap();
    assert_eq!(a.len(), 2);
    assert_eq!(a.get(0).as_slice(), b"MULTILINE=YES");
    assert_eq!(a.get(1).as_slice(), format!("SCHEMA={schema}").as_bytes());
    assert!(projjson_options(Some(false), Some(8), None).is_ok());
}

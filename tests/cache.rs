use render_dispatch::cache::{render_lines, ProgramCache, RenderError};
use render_dispatch::ids::{Attributes, EffectMaterialId};
use render_dispatch::lines::{BaseLines, DrawCall, LinesError};

#[test]
fn same_key_compiles_once() {
    let mut cache: ProgramCache<String> = ProgramCache::new();
    let mut compilations = 0;
    for _ in 0..5 {
        let slot = cache
            .fetch_or_compile(42, || -> Result<String, ()> {
                compilations += 1;
                Ok("program 42".to_string())
            })
            .unwrap();
        assert_eq!(slot, 0);
        assert_eq!(cache.program(slot), "program 42");
    }
    assert_eq!(compilations, 1);
    assert_eq!(cache.compiled_count(), 1);
}

#[test]
fn distinct_keys_compile_separately() {
    let mut cache: ProgramCache<u32> = ProgramCache::new();
    let a = cache.fetch_or_compile(1, || -> Result<u32, ()> { Ok(10) }).unwrap();
    let b = cache.fetch_or_compile(2, || -> Result<u32, ()> { Ok(20) }).unwrap();
    assert_ne!(a, b);
    assert_eq!(*cache.program(a), 10);
    assert_eq!(*cache.program(b), 20);
    assert_eq!(cache.find(2), Some(b));
    assert_eq!(cache.find(3), None);
    assert_eq!(cache.compiled_count(), 2);
}

#[test]
fn failed_compilation_is_reported_and_not_stored() {
    let mut cache: ProgramCache<u32> = ProgramCache::new();
    let r = cache.fetch_or_compile(7, || -> Result<u32, String> { Err("syntax error".to_string()) });
    assert_eq!(r, Err("syntax error".to_string()));
    assert_eq!(cache.compiled_count(), 0);
    assert_eq!(cache.find(7), None);
}

#[test]
fn two_line_sets_share_one_program() {
    let mut cache: ProgramCache<String> = ProgramCache::new();
    let material = EffectMaterialId::ColorMaterial { texture: false };
    let required = Attributes::none();
    let first = BaseLines::new(4);
    let second = BaseLines::new(10);
    let mut compilations = 0;
    let a = render_lines(&mut cache, &first, required, &material, || -> Result<String, ()> {
        compilations += 1;
        Ok("lines+color".to_string())
    })
    .unwrap();
    let b = render_lines(&mut cache, &second, required, &material, || -> Result<String, ()> {
        compilations += 1;
        Ok("lines+color".to_string())
    })
    .unwrap();
    assert_eq!(compilations, 1);
    assert_eq!(cache.compiled_count(), 1);
    assert_eq!(a.slot, b.slot);
    assert_eq!(a.key, b.key);
    assert_eq!(a.plan.call, DrawCall::Arrays { vertex_count: 4 });
    assert_eq!(b.plan.call, DrawCall::Arrays { vertex_count: 10 });
}

#[test]
fn colored_lines_get_their_own_program() {
    let mut cache: ProgramCache<u32> = ProgramCache::new();
    let material = EffectMaterialId::ColorMaterial { texture: false };
    let required = Attributes { normal: false, tangents: false, uv: false, color: true };
    let plain = BaseLines::new(2);
    let colored = BaseLines { has_colors: true, ..BaseLines::new(2) };
    let a = render_lines(&mut cache, &plain, required, &material, || -> Result<u32, ()> { Ok(1) }).unwrap();
    let b = render_lines(&mut cache, &colored, required, &material, || -> Result<u32, ()> { Ok(2) }).unwrap();
    assert_ne!(a.slot, b.slot);
    assert!(!a.plan.attributes.color);
    assert!(b.plan.attributes.color);
    assert_eq!(cache.compiled_count(), 2);
}

#[test]
fn render_reports_compile_error_with_key() {
    let mut cache: ProgramCache<u32> = ProgramCache::new();
    let material = EffectMaterialId::OitResolveEffect { color_texture: true, depth_texture: false };
    let lines = BaseLines::new(2);
    let r = render_lines(&mut cache, &lines, Attributes::none(), &material, || -> Result<u32, &str> {
        Err("bad shader")
    });
    match r {
        Err(RenderError::Compile { key, error }) => {
            assert_eq!(key, 0x0100_0201);
            assert_eq!(error, "bad shader");
        }
        _ => panic!("expected a compile error"),
    }
    assert_eq!(cache.compiled_count(), 0);
}

#[test]
fn render_reports_odd_vertex_count() {
    let mut cache: ProgramCache<u32> = ProgramCache::new();
    let material = EffectMaterialId::ColorMaterial { texture: false };
    let lines = BaseLines::new(5);
    let r = render_lines(&mut cache, &lines, Attributes::none(), &material, || -> Result<u32, ()> { Ok(3) });
    match r {
        Err(RenderError::Lines(e)) => assert_eq!(e, LinesError::OddVertexCount { vertex_count: 5 }),
        _ => panic!("expected a lines error"),
    }
}

use gltf_material::document::Document;
use gltf_material::error::{DocumentIntegrityViolation, Fault, Field, Record};
use gltf_material::json;
use gltf_material::material::{
    AlphaMode, Material, NormalTexture, OcclusionTexture, PbrMetallicRoughness,
};
use gltf_material::scalar::{Scalar, HALF_BITS, ONE_BITS};
use gltf_material::text::str_eq;
use gltf_material::texture::Info;

fn scalar(value: f32) -> Scalar {
    Scalar::from_bits(value.to_bits())
}

fn float(value: Scalar) -> f32 {
    f32::from_bits(value.to_bits())
}

fn extras(text: &str) -> json::Extras {
    json::Extras { raw: text.as_bytes().to_vec() }
}

fn extensions(text: &str) -> json::Extensions {
    json::Extensions { raw: text.as_bytes().to_vec() }
}

fn texture(name: &str, source: usize) -> json::Texture {
    json::Texture {
        name: Some(name.to_string()),
        sampler: None,
        source,
        extensions: extensions(""),
        extras: extras(""),
    }
}

fn reference(index: usize, tex_coord: Option<u32>) -> json::TextureInfo {
    json::TextureInfo { index, tex_coord, extensions: extensions(""), extras: extras("") }
}

fn bare_material(alpha_mode: &str) -> json::Material {
    json::Material {
        name: None,
        alpha_cutoff: None,
        alpha_mode: alpha_mode.to_string(),
        double_sided: false,
        pbr_metallic_roughness: None,
        normal_texture: None,
        occlusion_texture: None,
        emissive_texture: None,
        emissive_factor: [scalar(0.0), scalar(0.0), scalar(0.0)],
        extensions: extensions(""),
        extras: extras(""),
    }
}

fn bare_pbr() -> json::PbrMetallicRoughness {
    json::PbrMetallicRoughness {
        base_color_factor: [scalar(1.0), scalar(1.0), scalar(1.0), scalar(1.0)],
        base_color_texture: None,
        metallic_factor: None,
        roughness_factor: None,
        metallic_roughness_texture: None,
        extensions: extensions(""),
        extras: extras(""),
    }
}

fn three_textures() -> Document {
    Document::new(
        vec![texture("albedo", 0), texture("normal", 1), texture("occlusion", 2)],
        Vec::new(),
    )
}

#[test]
fn scalar_constants_are_the_bit_patterns_of_the_defaults() {
    assert_eq!(HALF_BITS, 0.5f32.to_bits());
    assert_eq!(ONE_BITS, 1.0f32.to_bits());
    assert_eq!(float(Scalar::half()), 0.5);
    assert_eq!(float(Scalar::one()), 1.0);
    assert_eq!(Scalar::from_bits(0x4000_0000).to_bits(), 0x4000_0000);
    assert_eq!(float(Scalar::from_bits(0x4000_0000)), 2.0);
}

#[test]
fn scalar_or_prefers_the_value_present() {
    assert_eq!(Scalar::or(Some(scalar(0.25)), Scalar::one()), scalar(0.25));
    assert_eq!(Scalar::or(None, Scalar::one()), scalar(1.0));
    assert_eq!(Scalar::or(Some(scalar(0.0)), Scalar::half()), scalar(0.0));
}

#[test]
fn str_eq_compares_characters() {
    assert!(str_eq("", ""));
    assert!(str_eq("MASK", "MASK"));
    assert!(!str_eq("MASK", "MASKS"));
    assert!(!str_eq("MASK", "MASC"));
    assert!(!str_eq("mask", "MASK"));
    assert!(str_eq("b\u{e9}ton", "b\u{e9}ton"));
    assert!(!str_eq("b\u{e9}ton", "beton"));
}

#[test]
fn alpha_mode_names_are_read_as_their_modes() {
    assert_eq!(AlphaMode::parse("BLEND"), Some(AlphaMode::Blend));
    assert_eq!(AlphaMode::parse("MASK"), Some(AlphaMode::Mask));
    assert_eq!(AlphaMode::parse("OPAQUE"), Some(AlphaMode::Opaque));
}

#[test]
fn alpha_mode_rejects_every_other_string() {
    assert_eq!(AlphaMode::parse(""), None);
    assert_eq!(AlphaMode::parse("blend"), None);
    assert_eq!(AlphaMode::parse("Mask"), None);
    assert_eq!(AlphaMode::parse("OPAQUE "), None);
    assert_eq!(AlphaMode::parse("BLEN"), None);
    assert_eq!(AlphaMode::parse("TRANSLUCENT"), None);
}

#[test]
fn alpha_mode_round_trips_through_its_name() {
    assert_eq!(AlphaMode::Blend.as_str(), "BLEND");
    assert_eq!(AlphaMode::Mask.as_str(), "MASK");
    assert_eq!(AlphaMode::Opaque.as_str(), "OPAQUE");
    for mode in [AlphaMode::Blend, AlphaMode::Mask, AlphaMode::Opaque] {
        assert_eq!(AlphaMode::parse(mode.as_str()), Some(mode));
    }
}

#[test]
fn material_alpha_mode_decodes_the_record() {
    let document = three_textures();
    for (text, mode) in
        [("BLEND", AlphaMode::Blend), ("MASK", AlphaMode::Mask), ("OPAQUE", AlphaMode::Opaque)]
    {
        let record = bare_material(text);
        let material = Material::new(&document, &record);
        assert_eq!(material.alpha_mode(), Ok(mode));
    }
}

#[test]
fn material_alpha_mode_reports_an_unknown_mode() {
    let document = three_textures();
    let mut record = bare_material("ADDITIVE");
    record.name = Some("glass".to_string());
    let material = Material::new(&document, &record);
    let violation = material.alpha_mode().unwrap_err();
    assert_eq!(violation.field, Field::AlphaMode);
    assert_eq!(violation.fault, Fault::UnknownAlphaMode);
    assert_eq!(violation.record, Record::Material(&record));
    assert_eq!(violation.material_name(), Some("glass"));
}

#[test]
fn material_alpha_mode_reports_an_empty_mode() {
    let document = three_textures();
    let record = bare_material("");
    let material = Material::new(&document, &record);
    assert_eq!(
        material.alpha_mode(),
        Err(DocumentIntegrityViolation {
            record: Record::Material(&record),
            field: Field::AlphaMode,
            fault: Fault::UnknownAlphaMode,
        })
    );
}

#[test]
fn alpha_cutoff_defaults_to_one_half() {
    let document = three_textures();
    let record = bare_material("MASK");
    let material = Material::new(&document, &record);
    assert_eq!(float(material.alpha_cutoff()), 0.5);
    assert_eq!(material.alpha_cutoff().to_bits(), 0x3F00_0000);
}

#[test]
fn alpha_cutoff_hands_on_the_value_of_the_record() {
    let document = three_textures();
    let mut record = bare_material("MASK");
    record.alpha_cutoff = Some(scalar(0.75));
    let material = Material::new(&document, &record);
    assert_eq!(float(material.alpha_cutoff()), 0.75);
    record.alpha_cutoff = Some(scalar(0.0));
    let material = Material::new(&document, &record);
    assert_eq!(float(material.alpha_cutoff()), 0.0);
}

#[test]
fn material_scalars_and_payloads_pass_through() {
    let document = three_textures();
    let mut record = bare_material("OPAQUE");
    record.name = Some("brick".to_string());
    record.double_sided = true;
    record.emissive_factor = [scalar(0.1), scalar(0.2), scalar(0.3)];
    record.extensions = extensions("{\"KHR_materials_unlit\":{}}");
    record.extras = extras("{\"id\":7}");
    let material = Material::new(&document, &record);
    assert_eq!(material.name(), Some("brick"));
    assert!(material.double_sided());
    let factor = material.emissive_factor();
    assert_eq!([float(factor[0]), float(factor[1]), float(factor[2])], [0.1, 0.2, 0.3]);
    assert_eq!(material.extensions(), &extensions("{\"KHR_materials_unlit\":{}}"));
    assert_eq!(material.extras(), &extras("{\"id\":7}"));
    assert_eq!(material.as_json(), &record);
}

#[test]
fn material_without_a_name_has_none() {
    let document = three_textures();
    let record = bare_material("OPAQUE");
    let material = Material::new(&document, &record);
    assert_eq!(material.name(), None);
    assert!(!material.double_sided());
}

#[test]
fn material_without_a_pbr_block_yields_none() {
    let document = three_textures();
    let record = bare_material("OPAQUE");
    let material = Material::new(&document, &record);
    assert!(material.pbr_metallic_roughness().is_none());
}

#[test]
fn pbr_view_reflects_the_block() {
    let document = three_textures();
    let mut block = bare_pbr();
    block.base_color_factor = [scalar(0.5), scalar(0.25), scalar(0.125), scalar(1.0)];
    block.metallic_factor = Some(scalar(0.0));
    block.roughness_factor = Some(scalar(0.8));
    block.base_color_texture = Some(reference(0, Some(2)));
    block.metallic_roughness_texture = Some(reference(2, None));
    block.extensions = extensions("x");
    block.extras = extras("y");
    let mut record = bare_material("OPAQUE");
    record.pbr_metallic_roughness = Some(block.clone());
    let material = Material::new(&document, &record);
    let pbr = material.pbr_metallic_roughness().unwrap();
    assert_eq!(pbr.as_json(), &block);
    let color = pbr.base_color_factor();
    assert_eq!(
        [float(color[0]), float(color[1]), float(color[2]), float(color[3])],
        [0.5, 0.25, 0.125, 1.0]
    );
    assert_eq!(float(pbr.metallic_factor()), 0.0);
    assert_eq!(float(pbr.roughness_factor()), 0.8);
    assert_eq!(pbr.extensions(), &extensions("x"));
    assert_eq!(pbr.extras(), &extras("y"));
    let base = pbr.base_color_texture().unwrap().unwrap();
    assert_eq!(base.index(), 0);
    assert_eq!(base.tex_coord(), 2);
    assert_eq!(base.name(), Some("albedo"));
    let rough = pbr.metallic_roughness_texture().unwrap().unwrap();
    assert_eq!(rough.index(), 2);
    assert_eq!(rough.tex_coord(), 0);
    assert_eq!(rough.name(), Some("occlusion"));
}

#[test]
fn pbr_factors_default_to_one() {
    let document = three_textures();
    let block = bare_pbr();
    let pbr = PbrMetallicRoughness::new(&document, &block);
    assert_eq!(float(pbr.metallic_factor()), 1.0);
    assert_eq!(float(pbr.roughness_factor()), 1.0);
    assert_eq!(pbr.metallic_factor().to_bits(), 0x3F80_0000);
    assert!(pbr.base_color_texture().unwrap().is_none());
    assert!(pbr.metallic_roughness_texture().unwrap().is_none());
}

#[test]
fn pbr_texture_out_of_range_names_block_and_field() {
    let document = three_textures();
    let mut block = bare_pbr();
    block.base_color_texture = Some(reference(3, None));
    block.metallic_roughness_texture = Some(reference(usize::MAX, None));
    let pbr = PbrMetallicRoughness::new(&document, &block);
    assert_eq!(
        pbr.base_color_texture().unwrap_err(),
        DocumentIntegrityViolation {
            record: Record::PbrMetallicRoughness(&block),
            field: Field::BaseColorTexture,
            fault: Fault::TextureIndexOutOfRange { index: 3, count: 3 },
        }
    );
    let violation = pbr.metallic_roughness_texture().unwrap_err();
    assert_eq!(violation.field, Field::MetallicRoughnessTexture);
    assert_eq!(violation.fault, Fault::TextureIndexOutOfRange { index: usize::MAX, count: 3 });
    assert_eq!(violation.record, Record::PbrMetallicRoughness(&block));
    assert_eq!(violation.material_name(), None);
}

#[test]
fn absent_texture_references_are_not_errors() {
    let document = Document::new(Vec::new(), Vec::new());
    let record = bare_material("OPAQUE");
    let material = Material::new(&document, &record);
    assert!(material.normal_texture().unwrap().is_none());
    assert!(material.occlusion_texture().unwrap().is_none());
    assert!(material.emissive_texture().unwrap().is_none());
}

#[test]
fn normal_texture_out_of_range_is_reported() {
    let document = three_textures();
    let mut record = bare_material("OPAQUE");
    record.name = Some("brick".to_string());
    record.normal_texture =
        Some(json::NormalTexture { info: reference(7, None), scale: scalar(1.0) });
    let material = Material::new(&document, &record);
    let violation = material.normal_texture().unwrap_err();
    assert_eq!(violation.field, Field::NormalTexture);
    assert_eq!(violation.fault, Fault::TextureIndexOutOfRange { index: 7, count: 3 });
    assert_eq!(violation.record, Record::Material(&record));
    assert_eq!(violation.material_name(), Some("brick"));
}

#[test]
fn texture_index_equal_to_the_count_is_out_of_range() {
    let document = three_textures();
    let mut record = bare_material("OPAQUE");
    record.occlusion_texture =
        Some(json::OcclusionTexture { info: reference(3, None), strength: None });
    record.emissive_texture = Some(reference(3, Some(1)));
    record.normal_texture =
        Some(json::NormalTexture { info: reference(2, None), scale: scalar(1.0) });
    let material = Material::new(&document, &record);
    assert_eq!(
        material.occlusion_texture().unwrap_err(),
        DocumentIntegrityViolation {
            record: Record::Material(&record),
            field: Field::OcclusionTexture,
            fault: Fault::TextureIndexOutOfRange { index: 3, count: 3 },
        }
    );
    assert_eq!(
        material.emissive_texture().unwrap_err(),
        DocumentIntegrityViolation {
            record: Record::Material(&record),
            field: Field::EmissiveTexture,
            fault: Fault::TextureIndexOutOfRange { index: 3, count: 3 },
        }
    );
    assert_eq!(material.normal_texture().unwrap().unwrap().index(), 2);
}

#[test]
fn any_reference_into_an_empty_collection_is_out_of_range() {
    let document = Document::new(Vec::new(), Vec::new());
    let mut record = bare_material("OPAQUE");
    record.emissive_texture = Some(reference(0, None));
    let material = Material::new(&document, &record);
    let violation = material.emissive_texture().unwrap_err();
    assert_eq!(violation.fault, Fault::TextureIndexOutOfRange { index: 0, count: 0 });
    assert_eq!(violation.material_name(), None);
}

#[test]
fn masked_material_with_a_scaled_normal_map() {
    let document = Document::new(vec![texture("bumps", 0)], Vec::new());
    let mut record = bare_material("MASK");
    record.normal_texture =
        Some(json::NormalTexture { info: reference(0, Some(1)), scale: scalar(2.0) });
    let material = Material::new(&document, &record);
    assert_eq!(material.alpha_mode(), Ok(AlphaMode::Mask));
    assert_eq!(float(material.alpha_cutoff()), 0.5);
    let normal = material.normal_texture().unwrap().unwrap();
    assert_eq!(float(normal.scale()), 2.0);
    assert_eq!(normal.tex_coord(), 1);
    assert_eq!(normal.index(), 0);
    assert_eq!(normal.name(), Some("bumps"));
}

#[test]
fn resolving_twice_points_at_the_same_entry() {
    let document = three_textures();
    let mut record = bare_material("OPAQUE");
    record.normal_texture =
        Some(json::NormalTexture { info: reference(1, None), scale: scalar(1.0) });
    record.occlusion_texture =
        Some(json::OcclusionTexture { info: reference(2, None), strength: None });
    record.emissive_texture = Some(reference(0, None));
    let material = Material::new(&document, &record);
    let first = material.normal_texture().unwrap().unwrap();
    let second = material.normal_texture().unwrap().unwrap();
    assert_eq!(first.index(), 1);
    assert_eq!(second.index(), 1);
    assert!(std::ptr::eq(first.as_json(), second.as_json()));
    let first: &json::Texture = (*first).as_json();
    let second: &json::Texture = (*second).as_json();
    assert!(std::ptr::eq(first, second));
    assert!(std::ptr::eq(first, &document.textures[1]));
    let first = material.occlusion_texture().unwrap().unwrap();
    let second = material.occlusion_texture().unwrap().unwrap();
    assert_eq!((first.index(), second.index()), (2, 2));
    let first = material.emissive_texture().unwrap().unwrap();
    let second = material.emissive_texture().unwrap().unwrap();
    assert_eq!((first.index(), second.index()), (0, 0));
    assert!(std::ptr::eq(first.texture().as_json(), second.texture().as_json()));
}

#[test]
fn tex_coord_defaults_to_zero() {
    let document = three_textures();
    let plain = reference(1, None);
    let info = Info::resolve(&document, &plain).unwrap();
    assert_eq!(info.tex_coord(), 0);
    let chosen = reference(1, Some(3));
    let info = Info::resolve(&document, &chosen).unwrap();
    assert_eq!(info.tex_coord(), 3);
}

#[test]
fn occlusion_strength_defaults_to_one() {
    let document = three_textures();
    let mut record = bare_material("OPAQUE");
    record.occlusion_texture =
        Some(json::OcclusionTexture { info: reference(2, None), strength: None });
    let material = Material::new(&document, &record);
    let occlusion = material.occlusion_texture().unwrap().unwrap();
    assert_eq!(float(occlusion.strength()), 1.0);
    assert_eq!(occlusion.tex_coord(), 0);
    record.occlusion_texture =
        Some(json::OcclusionTexture { info: reference(2, Some(4)), strength: Some(scalar(0.3)) });
    let material = Material::new(&document, &record);
    let occlusion = material.occlusion_texture().unwrap().unwrap();
    assert_eq!(float(occlusion.strength()), 0.3);
    assert_eq!(occlusion.tex_coord(), 4);
    assert_eq!(occlusion.as_json(), record.occlusion_texture.as_ref().unwrap());
}

#[test]
fn specializations_behave_as_plain_references() {
    let document = three_textures();
    let mut shared = reference(1, Some(5));
    shared.extensions = extensions("ext");
    shared.extras = extras("app");
    let normal_record = json::NormalTexture { info: shared.clone(), scale: scalar(0.5) };
    let occlusion_record =
        json::OcclusionTexture { info: shared.clone(), strength: Some(scalar(0.5)) };
    let direct = Info::resolve(&document, &shared).unwrap();
    let resolved = document.texture(1).unwrap();
    let normal = NormalTexture::new(resolved, &normal_record);
    let occlusion = OcclusionTexture::new(resolved, &occlusion_record);

    assert_eq!(normal.tex_coord(), direct.tex_coord());
    assert_eq!(normal.as_info().tex_coord(), direct.tex_coord());
    assert_eq!(normal.index(), direct.index());
    assert_eq!(normal.as_info().texture().index(), direct.texture().index());
    assert_eq!(normal.as_info().as_json(), direct.as_json());
    assert_eq!(normal.extensions(), direct.extensions());
    assert_eq!(normal.extras(), direct.extras());
    assert_eq!(normal.as_json(), &normal_record);

    assert_eq!(occlusion.tex_coord(), direct.tex_coord());
    assert_eq!(occlusion.as_info().tex_coord(), 5);
    assert_eq!(occlusion.index(), direct.index());
    assert_eq!(occlusion.as_info().as_json(), direct.as_json());
    assert_eq!(occlusion.extensions(), &extensions("ext"));
    assert_eq!(occlusion.extras(), &extras("app"));
}

#[test]
fn document_resolves_indices_in_range_only() {
    let document = three_textures();
    assert_eq!(document.texture_count(), 3);
    for index in 0..3 {
        let view = document.texture(index).unwrap();
        assert_eq!(view.index(), index);
        assert!(std::ptr::eq(view.as_json(), &document.textures[index]));
        assert!(std::ptr::eq(view.document(), &document));
    }
    assert!(document.texture(3).is_none());
    assert!(document.texture(7).is_none());
    assert!(document.texture(usize::MAX).is_none());
}

#[test]
fn document_lists_its_textures_in_order() {
    let document = three_textures();
    let views = document.textures();
    assert_eq!(views.len(), 3);
    let names: Vec<Option<&str>> = views.iter().map(|view| view.name()).collect();
    assert_eq!(names, vec![Some("albedo"), Some("normal"), Some("occlusion")]);
    let indices: Vec<usize> = views.iter().map(|view| view.index()).collect();
    assert_eq!(indices, vec![0, 1, 2]);
    assert!(Document::new(Vec::new(), Vec::new()).textures().is_empty());
}

#[test]
fn document_hands_out_material_views() {
    let mut first = bare_material("BLEND");
    first.name = Some("water".to_string());
    first.emissive_texture = Some(reference(1, None));
    let second = bare_material("OPAQUE");
    let document =
        Document::new(vec![texture("a", 0), texture("b", 1)], vec![first.clone(), second]);
    let material = document.material(0).unwrap();
    assert_eq!(material.name(), Some("water"));
    assert_eq!(material.alpha_mode(), Ok(AlphaMode::Blend));
    assert_eq!(material.emissive_texture().unwrap().unwrap().name(), Some("b"));
    assert_eq!(material.as_json(), &first);
    assert_eq!(document.material(1).unwrap().alpha_mode(), Ok(AlphaMode::Opaque));
    assert!(document.material(2).is_none());
}

#[test]
fn texture_without_a_name_has_none() {
    let mut entry = texture("", 4);
    entry.name = None;
    let document = Document::new(vec![entry], Vec::new());
    let view = document.texture(0).unwrap();
    assert_eq!(view.name(), None);
    assert_eq!(view.as_json().source, 4);
}

#[test]
fn info_resolve_fails_out_of_range() {
    let document = three_textures();
    assert!(Info::resolve(&document, &reference(3, None)).is_none());
    let held = reference(2, None);
    let info = Info::resolve(&document, &held).unwrap();
    assert_eq!(info.texture().index(), 2);
    assert!(std::ptr::eq(info.as_json(), &held));
}

use rspack_render::chunk_render::{
    content_hash, render_chunk_to_source, render_manifest, render_module_debug_info, Chunk,
    AssetInfo, ChunkKind, ModuleInfo, AUTO_PUBLIC_PATH_PLACEHOLDER,
};
use rspack_render::code_generation::{CodeGenerationEntry, CodeGenerationResults, SourceType};
use rspack_render::hash::{HashFunction, HashOptions};

const RUNTIME: u64 = 7;

fn module(handle: u64, id: &str, lib_ident: Option<&str>) -> ModuleInfo {
    ModuleInfo {
        handle,
        id: Some(id.to_string()),
        lib_ident: lib_ident.map(|s| s.to_string()),
        module_type: "css".to_string(),
    }
}

fn entry(module: u64, source: &str, hash: &[u8]) -> CodeGenerationEntry {
    CodeGenerationEntry {
        module,
        runtime: RUNTIME,
        source_type: SourceType::Css,
        source: source.to_string(),
        hash: hash.to_vec(),
    }
}

fn store(entries: Vec<CodeGenerationEntry>) -> CodeGenerationResults {
    let mut results = CodeGenerationResults::new();
    for e in entries {
        assert!(results.insert(e));
    }
    results
}

fn xxhash_options() -> HashOptions {
    HashOptions { function: HashFunction::Xxhash64, salt: None, digest_length: 8 }
}

fn info() -> AssetInfo {
    AssetInfo { immutable: false, content_hash: Some("0fa0".to_string()) }
}

fn normal_chunk() -> Chunk {
    Chunk { kind: ChunkKind::Normal, runtime: RUNTIME }
}

#[test]
fn renders_fragments_in_order_with_newlines() {
    let results = store(vec![entry(1, "a{}", b"da"), entry(2, "b{}", b"db")]);
    let mods = vec![module(1, "0", None), module(2, "1", None)];
    assert_eq!(render_chunk_to_source(false, &results, RUNTIME, SourceType::Css, &mods), "a{}\nb{}\n");
    let swapped = vec![module(2, "1", None), module(1, "0", None)];
    assert_eq!(render_chunk_to_source(false, &results, RUNTIME, SourceType::Css, &swapped), "b{}\na{}\n");
}

#[test]
fn development_mode_wraps_in_markers() {
    let results = store(vec![entry(1, "a{}", b"da")]);
    let mods = vec![module(1, "0", Some("./a.css"))];
    let expected = "/* #region \"./a.css\" */\n/*\n- type: css\n*/\na{}\n/* #endregion \"./a.css\" */\n\n";
    assert_eq!(render_chunk_to_source(true, &results, RUNTIME, SourceType::Css, &mods), expected);
    assert_eq!(render_chunk_to_source(false, &results, RUNTIME, SourceType::Css, &mods), "a{}\n");
}

#[test]
fn debug_info_without_library_identifier() {
    let m = module(3, "0", None);
    let (start, end) = render_module_debug_info(true, &m);
    assert_eq!(start, "/* #region \"None\" */\n/*\n- type: css\n*/\n");
    assert_eq!(end, "/* #endregion \"None\" */\n\n");
    let (start, end) = render_module_debug_info(false, &m);
    assert_eq!(start, "");
    assert_eq!(end, "");
}

#[test]
fn debug_identifier_is_escaped() {
    let m = module(3, "0", Some("a\"b"));
    let (start, end) = render_module_debug_info(true, &m);
    assert_eq!(start, "/* #region \"a\\\"b\" */\n/*\n- type: css\n*/\n");
    assert_eq!(end, "/* #endregion \"a\\\"b\" */\n\n");
}

#[test]
fn absent_module_contributes_nothing() {
    let results = store(vec![entry(1, "a{}", b"da"), entry(2, "b{}", b"db")]);
    let with = vec![module(1, "0", Some("a")), module(9, "5", Some("x")), module(2, "1", Some("b"))];
    let without = vec![module(1, "0", Some("a")), module(2, "1", Some("b"))];
    for dev in [false, true] {
        assert_eq!(
            render_chunk_to_source(dev, &results, RUNTIME, SourceType::Css, &with),
            render_chunk_to_source(dev, &results, RUNTIME, SourceType::Css, &without)
        );
    }
    let options = xxhash_options();
    assert_eq!(
        content_hash(&options, &results, RUNTIME, SourceType::Css, &with),
        content_hash(&options, &results, RUNTIME, SourceType::Css, &without)
    );
}

#[test]
fn other_kind_or_runtime_is_absent() {
    let results = store(vec![entry(1, "a{}", b"da")]);
    let mods = vec![module(1, "0", None)];
    assert_eq!(render_chunk_to_source(false, &results, RUNTIME, SourceType::JavaScript, &mods), "");
    assert_eq!(render_chunk_to_source(false, &results, RUNTIME + 1, SourceType::Css, &mods), "");
    assert_eq!(content_hash(&xxhash_options(), &results, RUNTIME, SourceType::JavaScript, &mods), None);
}

#[test]
fn empty_chunk_has_no_manifest_and_no_hash() {
    let results = store(vec![entry(1, "a{}", b"da")]);
    let mods: Vec<ModuleInfo> = Vec::new();
    let manifest = render_manifest(&normal_chunk(), &mods, &results, false, SourceType::Css, "a.css", info(), "../");
    assert!(manifest.is_empty());
    assert_eq!(content_hash(&xxhash_options(), &results, RUNTIME, SourceType::Css, &mods), None);
}

#[test]
fn hot_update_chunk_has_no_manifest() {
    let results = store(vec![entry(1, "a{}", b"da")]);
    let mods = vec![module(1, "0", None)];
    let chunk = Chunk { kind: ChunkKind::HotUpdate, runtime: RUNTIME };
    assert!(render_manifest(&chunk, &mods, &results, false, SourceType::Css, "a.css", info(), "../").is_empty());
}

#[test]
fn manifest_replaces_public_path_placeholders() {
    let source = format!("a{{background:url({p}img.png)}}b{{x:url({p}y.png)}}", p = AUTO_PUBLIC_PATH_PLACEHOLDER);
    let results = store(vec![entry(1, &source, b"da")]);
    let mods = vec![module(1, "0", None)];
    let manifest = render_manifest(&normal_chunk(), &mods, &results, false, SourceType::Css, "css/a.css", info(), "../");
    assert_eq!(manifest.len(), 1);
    assert_eq!(manifest[0].source, "a{background:url(../img.png)}b{x:url(../y.png)}\n");
    assert_eq!(manifest[0].filename, "css/a.css");
    assert_eq!(manifest[0].asset_info, info());
    assert!(!manifest[0].is_entry);
    assert!(!manifest[0].is_initial);
}

#[test]
fn manifest_with_only_absent_modules_has_no_entry() {
    let results = store(vec![entry(1, "a{}", b"da")]);
    let mods = vec![module(4, "0", None), module(5, "1", None)];
    let manifest = render_manifest(&normal_chunk(), &mods, &results, false, SourceType::Css, "a.css", info(), "");
    assert!(manifest.is_empty());
    let with_present = vec![module(4, "0", None), module(1, "1", None)];
    let manifest = render_manifest(&normal_chunk(), &with_present, &results, false, SourceType::Css, "a.css", info(), "");
    assert_eq!(manifest.len(), 1);
    assert_eq!(manifest[0].source, "a{}\n");
}

fn expected_feed(parts: &[(&[u8], &str)]) -> Vec<u8> {
    let mut feed = Vec::new();
    for (digest, id) in parts {
        feed.extend_from_slice(&(digest.len() as u64).to_le_bytes());
        feed.extend_from_slice(digest);
        feed.extend_from_slice(&1u64.to_le_bytes());
        feed.extend_from_slice(id.as_bytes());
        feed.push(0xff);
    }
    feed
}

#[test]
fn hash_folds_digests_and_ids_in_order() {
    let da: &[u8] = &[1, 2, 3, 4];
    let db: &[u8] = &[5, 6, 7, 8];
    let results = store(vec![entry(1, "a{}", da), entry(2, "b{}", db)]);
    let ab = vec![module(1, "0", None), module(2, "1", None)];
    let ba = vec![module(2, "1", None), module(1, "0", None)];
    let options = xxhash_options();
    let h_ab = content_hash(&options, &results, RUNTIME, SourceType::Css, &ab).unwrap();
    let want = xxhash_rust::xxh64::xxh64(&expected_feed(&[(da, "0"), (db, "1")]), 0).to_le_bytes();
    assert_eq!(h_ab.inner, want.to_vec());
    assert_eq!(h_ab.encoded, hex::encode(want));
    let h_ba = content_hash(&options, &results, RUNTIME, SourceType::Css, &ba).unwrap();
    assert_ne!(h_ab, h_ba);
}

#[test]
fn hash_is_deterministic() {
    let results = store(vec![entry(1, "a{}", b"da"), entry(2, "b{}", b"db")]);
    let mods = vec![module(1, "0", None), module(2, "1", None)];
    let options = xxhash_options();
    let first = content_hash(&options, &results, RUNTIME, SourceType::Css, &mods);
    let second = content_hash(&options, &results, RUNTIME, SourceType::Css, &mods);
    assert!(first.is_some());
    assert_eq!(first, second);
}

#[test]
fn salt_and_missing_id_feed_the_hash() {
    let results = store(vec![entry(1, "a{}", &[9, 9])]);
    let mods = vec![ModuleInfo { handle: 1, id: None, lib_ident: None, module_type: "css".to_string() }];
    let options = HashOptions { function: HashFunction::Xxhash64, salt: Some("s".to_string()), digest_length: 4 };
    let got = content_hash(&options, &results, RUNTIME, SourceType::Css, &mods).unwrap();
    let mut feed = vec![b's', 0xff];
    feed.extend_from_slice(&2u64.to_le_bytes());
    feed.extend_from_slice(&[9, 9]);
    feed.extend_from_slice(&0u64.to_le_bytes());
    assert_eq!(got.inner, xxhash_rust::xxh64::xxh64(&feed, 0).to_le_bytes().to_vec());
    assert_eq!(got.rendered(options.digest_length), got.encoded[..4].to_string());
}

#[test]
fn md4_content_hash_has_sixteen_bytes() {
    let results = store(vec![entry(1, "a{}", b"da")]);
    let mods = vec![module(1, "0", None)];
    let options = HashOptions { function: HashFunction::Md4, salt: None, digest_length: 20 };
    let got = content_hash(&options, &results, RUNTIME, SourceType::Css, &mods).unwrap();
    assert_eq!(got.inner.len(), 16);
    assert_eq!(got.encoded.len(), 32);
    assert_eq!(got.rendered(20), got.encoded[..20].to_string());
    let xx = content_hash(&xxhash_options(), &results, RUNTIME, SourceType::Css, &mods).unwrap();
    assert_ne!(got.inner, xx.inner);
}

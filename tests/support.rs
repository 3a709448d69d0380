use rspack_render::dependency_type::DependencyType;
use rspack_render::plugin::{CssPlugin, ModuleType};
use rspack_render::code_generation::{CodeGenerationEntry, CodeGenerationResults, SourceType};
use rspack_render::hash::{digest, ContentDigest, HashFunction};
use rspack_render::runtime_module::ChunkPrefetchPreloadFunctionRuntimeModule;
use rspack_render::text::replace_all_str;

#[test]
fn replace_all_replaces_every_occurrence() {
    assert_eq!(replace_all_str("a-b-c", "-", "+"), "a+b+c");
    assert_eq!(replace_all_str("aaa", "aa", "b"), "ba");
    assert_eq!(replace_all_str("xyz", "abc", "q"), "xyz");
    assert_eq!(replace_all_str("", "a", "b"), "");
    assert_eq!(replace_all_str("héllo wörld", "ö", "o"), "héllo world");
}

#[test]
fn cache_keeps_one_entry_per_key() {
    let mut results = CodeGenerationResults::new();
    let e = CodeGenerationEntry { module: 1, runtime: 2, source_type: SourceType::Css, source: "a".to_string(), hash: vec![1] };
    assert!(results.insert(e.clone()));
    let again = CodeGenerationEntry { source: "b".to_string(), ..e.clone() };
    assert!(!results.insert(again));
    assert_eq!(results.get(1, 2, SourceType::Css), Some(&e));
    assert_eq!(results.get(1, 2, SourceType::JavaScript), None);
    assert_eq!(results.get(1, 3, SourceType::Css), None);
    let js = CodeGenerationEntry { source_type: SourceType::JavaScript, ..e.clone() };
    assert!(results.insert(js.clone()));
    assert_eq!(results.get(1, 2, SourceType::JavaScript), Some(&js));
}

#[test]
fn digest_hex_encoding() {
    let d = ContentDigest::new(vec![0x0f, 0xa0, 0xff]);
    assert_eq!(d.encoded, "0fa0ff");
    assert_eq!(d.rendered(4), "0fa0");
    assert_eq!(d.rendered(100), "0fa0ff");
    assert_eq!(d.rendered(0), "");
}

#[test]
fn digest_uses_the_chosen_algorithm() {
    let data = b"abc".to_vec();
    let xx = digest(HashFunction::Xxhash64, &data);
    assert_eq!(xx.inner, xxhash_rust::xxh64::xxh64(b"abc", 0).to_le_bytes().to_vec());
    let md = digest(HashFunction::Md4, &data);
    assert_eq!(md.encoded, "a448017aaf21d8525fc10ae87aa6729d");
}

#[test]
fn runtime_module_name_and_source() {
    let m = ChunkPrefetchPreloadFunctionRuntimeModule::new("prefetch", "__webpack_require__.F", "__webpack_require__.F.handlers");
    assert_eq!(m.name(), "webpack/runtime/chunk_prefetch_function/prefetch");
    let expected = "__webpack_require__.F = function (chunkId) {\n\tObject.keys(__webpack_require__.F.handlers).map(function (key) {\n\t\t__webpack_require__.F.handlers[key](chunkId);\n\t});\n};\n";
    assert_eq!(m.generate(), expected);
    let again = ChunkPrefetchPreloadFunctionRuntimeModule::new("prefetch", "__webpack_require__.F", "__webpack_require__.F.handlers");
    assert_eq!(m, again);
    let preload = ChunkPrefetchPreloadFunctionRuntimeModule::new("preload", "__webpack_require__.G", "__webpack_require__.G.handlers");
    assert_eq!(preload.name(), "webpack/runtime/chunk_prefetch_function/preload");
    assert_ne!(m, preload);
}

#[test]
fn css_plugin_registrations() {
    let plugin = CssPlugin {};
    assert_eq!(plugin.name(), "css");
    assert_eq!(plugin.module_types(), vec![ModuleType::Css, ModuleType::CssModule, ModuleType::CssAuto]);
    assert_eq!(
        plugin.dependency_types(),
        vec![DependencyType::CssUrl, DependencyType::CssImport, DependencyType::CssCompose]
    );
    assert_eq!(ModuleType::CssModule.as_str(), "css/module");
    assert_eq!(ModuleType::CssAuto.as_str(), "css/auto");
}

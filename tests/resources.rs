use ronin::importer::{CountedImporter, Importer};
use ronin::resources::{import_key, ResourceCache, ResourceManager};
use std::sync::Arc;

/// Builds a resource from the path, counting its imports.
struct Counting<T> {
    imports: u32,
    make: fn(&str, u32) -> T,
}

impl<T> Importer<T> for Counting<T> {
    fn import(&mut self, path: &str) -> T {
        self.imports += 1;
        (self.make)(path, self.imports)
    }
}

fn named(path: &str, _: u32) -> String {
    String::from(path)
}

fn numbered(_: &str, n: u32) -> u32 {
    n
}

#[test]
fn load_twice_returns_same_handle_and_imports_once() {
    let mut cache: ResourceCache<String> = ResourceCache::with_capacity(4);
    let mut importer = CountedImporter::new(Counting { imports: 0, make: named });
    let a = cache.load(&mut importer, "db/meshes/cube.obj");
    let b = cache.load(&mut importer, "db/meshes/cube.obj");
    assert!(Arc::ptr_eq(&a, &b));
    assert_eq!(*b, "db/meshes/cube.obj");
    assert_eq!(importer.inner().imports, 1);
    assert_eq!(cache.table().len(), 1);
}

#[test]
fn each_distinct_path_is_imported_once() {
    let mut cache: ResourceCache<u32> = ResourceCache::with_capacity(0);
    let mut importer = CountedImporter::new(Counting { imports: 0, make: numbered });
    let paths = ["a.png", "b.png", "a.png", "c.obj", "b.png", "a.png"];
    for p in paths.iter() {
        cache.load(&mut importer, p);
    }
    assert_eq!(importer.inner().imports, 3);
    assert_eq!(cache.table().len(), 3);
    assert_eq!(**cache.get(import_key("c.obj")).unwrap(), 3);
}

#[test]
fn equal_paths_have_equal_keys() {
    let p1 = String::from("db/textures/grid.png");
    let p2 = String::from("db/textures/grid.png");
    assert_eq!(import_key(&p1), import_key(&p2));
}

#[test]
fn sample_paths_have_distinct_keys() {
    let paths = [
        "db/meshes/cube.obj",
        "db/textures/grid.png",
        "db/shaders/fixed_pipelines/lambert/shader.vert.glsl",
        "db/shaders/fixed_pipelines/lambert/shader.frag.glsl",
        "db/shaders/mipgen/final/blit.vert.spv",
        "db/shaders/mipgen/final/blit.frag.spv",
        "db/meshes/Cube.obj",
        "",
    ];
    for i in 0..paths.len() {
        for j in (i + 1)..paths.len() {
            assert_ne!(import_key(paths[i]), import_key(paths[j]), "{} {}", paths[i], paths[j]);
        }
    }
}

#[test]
fn clear_drops_entries_and_load_imports_again() {
    let mut cache: ResourceCache<u32> = ResourceCache::with_capacity(2);
    let mut importer = CountedImporter::new(Counting { imports: 0, make: numbered });
    cache.load(&mut importer, "x");
    assert!(cache.contains(import_key("x")));
    cache.clear();
    assert!(!cache.contains(import_key("x")));
    assert!(cache.get(import_key("x")).is_none());
    let again = cache.load_imm(&mut importer, "x");
    assert_eq!(*again, 2);
    assert_eq!(importer.inner().imports, 2);
}

#[test]
fn insert_then_load_uses_the_inserted_value() {
    let mut cache: ResourceCache<u32> = ResourceCache::with_capacity(2);
    let mut importer = CountedImporter::new(Counting { imports: 0, make: numbered });
    let value = Arc::new(42);
    cache.insert(import_key("preloaded"), value.clone());
    let got = cache.load(&mut importer, "preloaded");
    assert!(Arc::ptr_eq(&got, &value));
    assert_eq!(importer.inner().imports, 0);
}

#[test]
fn manager_starts_with_empty_caches() {
    let manager: ResourceManager<u8, u16> = ResourceManager::with_capacity(128);
    assert!(manager.texture_cache.table().is_empty());
    assert!(manager.mesh_cache.table().is_empty());
}

#[test]
fn cache_over_existing_table() {
    let mut table = std::collections::HashMap::new();
    table.insert(import_key("t"), Arc::new(5u8));
    let cache = ResourceCache::new(table);
    assert_eq!(**cache.get(import_key("t")).unwrap(), 5);
}

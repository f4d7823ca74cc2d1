use telividb::compute::link::link_order;

fn names(list: &[&str]) -> Vec<String> {
    list.iter().map(|s| s.to_string()).collect()
}

#[test]
fn the_base_library_links_last_and_the_umbrella_first() {
    let found = names(&["libggml-base.a", "libggml-cpu.a", "libggml.a", "libggml-metal.a"]);
    assert_eq!(
        link_order(&found),
        names(&["ggml", "ggml-cpu", "ggml-metal", "ggml-base"])
    );
}

#[test]
fn files_that_are_not_runtime_archives_are_ignored() {
    let found = names(&[
        "libfoo.a",
        "libggml-cpu.so",
        "ggml.a",
        "lib.a",
        "libggm.a",
        "cmake",
        "libggml-blas.a",
    ]);
    assert_eq!(link_order(&found), names(&["ggml-blas"]));
}

#[test]
fn backends_keep_their_listing_order() {
    let found = names(&["libggml-vulkan.a", "libggml-base.a", "libggml-cpu.a"]);
    assert_eq!(link_order(&found), names(&["ggml-vulkan", "ggml-cpu", "ggml-base"]));
}

#[test]
fn an_empty_directory_links_nothing() {
    assert!(link_order(&Vec::new()).is_empty());
}

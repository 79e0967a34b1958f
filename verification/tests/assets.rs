use bittower::assets::{read_hash_suffix, script_href, stylesheet_href, wasm_href};

fn by_std(text: &str, kind: &str) -> String {
    let mut out = String::new();
    for line in text.lines() {
        let line = line.trim();
        if !line.is_empty() {
            if let Some((file, hash)) = line.split_once(':') {
                if file == kind {
                    out.push_str(&format!(".{}", hash.trim()));
                }
            }
        }
    }
    out
}

#[test]
fn hash_file_of_a_build() {
    let text = "js: 9f3a\nwasm: 77b1\ncss: c0ffee\n";
    assert_eq!(read_hash_suffix(text, "css"), ".c0ffee");
    assert_eq!(read_hash_suffix(text, "js"), ".9f3a");
    assert_eq!(read_hash_suffix(text, "wasm"), ".77b1");
    assert_eq!(read_hash_suffix(text, "png"), "");
}

#[test]
fn hash_file_edge_cases() {
    assert_eq!(read_hash_suffix("", "css"), "");
    assert_eq!(read_hash_suffix("\n\n", "css"), "");
    assert_eq!(read_hash_suffix("css", "css"), "");
    assert_eq!(read_hash_suffix("css:", "css"), ".");
    assert_eq!(read_hash_suffix(":x", ""), ".x");
    assert_eq!(read_hash_suffix("  css:  ab cd \t\r\n", "css"), ".ab cd");
    assert_eq!(read_hash_suffix("css :x", "css"), "");
    assert_eq!(read_hash_suffix("css:a:b", "css"), ".a:b");
    assert_eq!(read_hash_suffix("css:a\ncss:b", "css"), ".a.b");
    assert_eq!(read_hash_suffix("CSS:a", "css"), "");
    assert_eq!(read_hash_suffix("\u{3000}css:\u{a0}h\u{2003}", "css"), ".h");
}

#[test]
fn hash_suffix_agrees_with_std() {
    let texts = [
        "",
        "css:1",
        "css:1\n",
        "\ncss:1",
        "js:a\r\nwasm:b\r\ncss:c\r\n",
        " js : a \n wasm:b\t\n\tcss:c",
        "css:\ncss\n:css\ncss::\n",
        "a\rb:css\rcss:x",
        "css:é\u{2028}css:y",
        "js:1\n\n\njs:2\n   \njs:3",
        "\u{85}js:\u{1680}q\u{205f}\n",
        "wasm:aaaaaaaaaaaaaaaaaaaaaaaaaaaaaaaaaaaaaaaaaaaaaaaaaaaaaaaaaaaaaaaa",
    ];
    for text in texts {
        for kind in ["css", "js", "wasm", "", "a\rb", "c"] {
            assert_eq!(read_hash_suffix(text, kind), by_std(text, kind), "{:?} {:?}", text, kind);
        }
    }
}

#[test]
fn asset_paths() {
    let hashes = "js: 11\nwasm: 22\ncss: 33\n";
    assert_eq!(stylesheet_href("pkg", "bittower", Some(hashes)), "/pkg/bittower.33.css");
    assert_eq!(stylesheet_href("pkg", "bittower", None), "/pkg/bittower.css");
    assert_eq!(script_href("pkg", "bittower", Some(hashes)), "/pkg/bittower.11.js");
    assert_eq!(script_href("pkg", "bittower", None), "/pkg/bittower.js");
    assert_eq!(wasm_href("pkg", "bittower", true, Some(hashes), false), "/pkg/bittower.22.wasm");
    assert_eq!(wasm_href("pkg", "bittower", true, None, false), "/pkg/bittower.wasm");
    assert_eq!(wasm_href("pkg", "bittower", false, None, false), "/pkg/bittower_bg.wasm");
    assert_eq!(wasm_href("pkg", "bittower", false, Some(hashes), false), "/pkg/bittower_bg.wasm");
    assert_eq!(wasm_href("pkg", "bittower", false, None, true), "/pkg/bittower.wasm");
}

use buildpkg::path_utils::{sanitize_path, PathError};

// The rules of normalization, written out on lists of segments.

fn segments(text: &str) -> Vec<String> {
    let mut list = vec![String::new()];
    for c in text.chars() {
        if c == '/' {
            list.push(String::new());
        } else {
            list.last_mut().unwrap().push(c);
        }
    }
    list
}

fn names(text: &str) -> Vec<String> {
    segments(text).into_iter().filter(|s| !s.is_empty() && s != ".").collect()
}

fn resolve(list: &[String], rooted: bool) -> Vec<String> {
    let mut kept: Vec<String> = Vec::new();
    for name in list {
        if name != ".." {
            kept.push(name.clone());
        } else if !kept.is_empty() && kept.last().unwrap() != ".." {
            kept.pop();
        } else if !rooted {
            kept.push(name.clone());
        }
    }
    kept
}

fn normal_form(text: &str) -> String {
    let rooted = text.starts_with('/');
    let kept = resolve(&names(text), rooted);
    if rooted {
        format!("/{}", kept.join("/"))
    } else if kept.is_empty() {
        ".".to_string()
    } else {
        kept.join("/")
    }
}

fn confined(base: &str, relative: &str) -> Result<String, PathError> {
    let clean = normal_form(relative);
    if segments(&clean).iter().any(|s| s == "..") {
        return Err(PathError::PathTraversal);
    }
    let tail = clean.strip_prefix('/').unwrap_or(&clean);
    if base.is_empty() || base.ends_with('/') {
        Ok(format!("{}{}", base, tail))
    } else {
        Ok(format!("{}/{}", base, tail))
    }
}

fn all_texts(alphabet: &[char], longest: usize) -> Vec<String> {
    let mut all = vec![String::new()];
    let mut last = vec![String::new()];
    for _ in 0..longest {
        let mut next = Vec::new();
        for text in &last {
            for c in alphabet {
                let mut longer = text.clone();
                longer.push(*c);
                next.push(longer);
            }
        }
        all.extend(next.iter().cloned());
        last = next;
    }
    all
}

#[test]
fn normal_form_is_what_the_cleaner_returns() {
    for text in all_texts(&['/', '.', 'a'], 8) {
        let cleaned = path_clean::clean(&text);
        assert_eq!(normal_form(&text), cleaned.to_str().unwrap(), "for {:?}", text);
    }
}

#[test]
fn normal_form_of_known_paths() {
    let cases = [
        ("", "."),
        (".", "."),
        ("..", ".."),
        ("/", "/"),
        ("//", "/"),
        (".//", "."),
        ("//..", "/"),
        ("..//", ".."),
        ("/.//./", "/"),
        ("path//to///thing", "path/to/thing"),
        ("/test/./path/", "/test/path"),
        ("test/path/../../..", ".."),
        ("/test/path/../../../..", "/"),
        ("test/path/../../../..", "../.."),
        ("test/path/../../another/path/..", "another"),
        ("../test/..", ".."),
    ];
    for (input, expected) in cases {
        assert_eq!(normal_form(input), expected);
        assert_eq!(path_clean::clean(input).to_str().unwrap(), expected);
    }
}

#[test]
fn confinement_follows_the_rules_for_every_short_path() {
    for base in ["/base/dir", "/base/", "", "rel"] {
        for text in all_texts(&['/', '.', 'a'], 7) {
            assert_eq!(sanitize_path(base, &text), confined(base, &text), "for {:?}", text);
        }
    }
}

#[test]
fn confinement_follows_the_rules_for_other_characters() {
    for text in all_texts(&['/', '.', 'é', ' '], 5) {
        assert_eq!(sanitize_path("/b", &text), confined("/b", &text), "for {:?}", text);
    }
}

#[test]
fn confinement_never_ends_outside_the_base() {
    for text in all_texts(&['/', '.', 'a'], 7) {
        let result = sanitize_path("/base/dir", &text);
        assert_ne!(result, Err(PathError::NotInTargetDir));
        if let Ok(path) = result {
            let below = std::path::Path::new(&path).strip_prefix("/base/dir").unwrap();
            assert!(below.components().all(|c| matches!(c, std::path::Component::Normal(_))));
        }
    }
}

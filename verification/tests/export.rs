use api::types::export::{
    camel_case, display_path_str, is_param, path_not_params, path_params, path_parts,
    route_comment_path, route_function, strip_location_position, trim_path, unpluralize,
    RouteFunction,
};

#[test]
fn test_path_params() {
    let path = "/api/v1/users/{user_id}/posts/{post_id}";
    let params = path_params(path);
    assert_eq!(params, vec!["user_id", "post_id"]);
}

#[test]
fn test_path_not_params() {
    let path = "/api/v1/users/{user_id}/posts/{post_id}";
    let not_params = path_not_params(path);
    assert_eq!(not_params, vec!["api", "v1", "users", "posts"]);
}

#[test]
fn test_camel_case() {
    let input = vec!["hello".to_string(), "world".to_string()];
    let output = camel_case(&input);
    assert_eq!(output, "helloWorld");
}

#[test]
fn camel_case_lowers_the_rest_and_raises_the_first() {
    let input = vec!["HELLO".to_string(), "wORLD".to_string(), "".to_string(), "x".to_string()];
    assert_eq!(camel_case(&input), "helloWorldX");
    assert_eq!(camel_case(&vec![]), "");
    assert_eq!(camel_case(&vec!["\u{df}a".to_string(), "\u{df}a".to_string()]), "\u{df}aSa");
}

#[test]
fn path_parts_skip_empty_parts() {
    assert_eq!(path_parts("//a///b/"), vec!["a", "b"]);
    assert_eq!(path_parts(""), Vec::<String>::new());
    assert_eq!(path_parts("/"), Vec::<String>::new());
    assert_eq!(path_parts("abc"), vec!["abc"]);
}

#[test]
fn params_are_parts_between_braces() {
    assert!(is_param("{id}"));
    assert!(is_param("{}"));
    assert!(!is_param("{id"));
    assert!(!is_param("id}"));
    assert!(!is_param("{"));
    assert!(!is_param(""));
    assert_eq!(path_params("/{}/x"), vec![""]);
    assert_eq!(path_not_params("/{a}/{b}"), Vec::<String>::new());
}

#[test]
fn unpluralize_takes_one_s() {
    assert_eq!(unpluralize("users".to_string()), "user");
    assert_eq!(unpluralize("class".to_string()), "clas");
    assert_eq!(unpluralize("user".to_string()), "user");
    assert_eq!(unpluralize("".to_string()), "");
}

#[test]
fn location_without_position() {
    assert_eq!(strip_location_position("src/routes/mod.rs:12:30"), "src/routes/mod.rs");
    assert_eq!(strip_location_position("src/routes/mod.rs"), "src/routes/mod.rs");
    assert_eq!(strip_location_position(":1"), "");
}

#[test]
fn display_path_uses_slashes() {
    assert_eq!(display_path_str("\\\\?\\C:\\types\\api.ts"), "C:/types/api.ts");
    assert_eq!(display_path_str("a/b"), "a/b");
    assert_eq!(
        display_path_str("\\\\?\\x"),
        "\\\\?\\x".replace("\\\\?\\", "").replace("\\", "/")
    );
}

fn reference_camel_case(parts: &[&str]) -> String {
    let mut result = String::new();
    for (i, s) in parts.iter().enumerate() {
        if i == 0 {
            result.push_str(&s.to_lowercase());
        } else {
            let mut chars = s.chars();
            if let Some(first) = chars.next() {
                result.push(first.to_uppercase().next().unwrap());
            }
            result.push_str(&chars.as_str().to_lowercase());
        }
    }
    result
}

fn reference_route_function(path: &str) -> Option<(String, String)> {
    let parts_of = |p: &str| -> Vec<String> {
        p.split('/').filter(|s| !s.is_empty()).map(|s| s.to_string()).collect()
    };
    let param = |s: &str| s.starts_with('{') && s.ends_with('}');
    let strip = |s: String| match s.strip_suffix('s') {
        Some(stripped) => stripped.to_string(),
        None => s,
    };
    let last_part_param = parts_of(path).last().map(|s| param(s)).unwrap_or(false);
    let mut parts: Vec<String> = parts_of(path)
        .iter()
        .filter(|s| !param(s))
        .map(|s| s.chars().filter(|c| c.is_alphanumeric()).collect())
        .collect();
    if parts.is_empty() {
        return None;
    }
    let last = parts.pop();
    let last = if last_part_param { last.map(strip) } else { last };
    let parts: Vec<String> = parts.into_iter().map(strip).chain(last).collect();
    let refs: Vec<&str> = parts.iter().map(|s| s.as_str()).collect();
    let name = reference_camel_case(&refs);
    if name.is_empty() {
        return None;
    }
    let params = parts_of(path)
        .iter()
        .filter(|s| param(s))
        .map(|s| reference_camel_case(&s[1..s.len() - 1].split('_').collect::<Vec<_>>()))
        .map(|p| format!("{p}: string"))
        .collect::<Vec<_>>()
        .join(", ");
    let string = parts_of(path)
        .iter()
        .map(|s| {
            if param(s) {
                let inner = s.trim_start_matches('{').trim_end_matches('}');
                let inner = reference_camel_case(&inner.split('_').collect::<Vec<_>>());
                format!("${{{inner}}}")
            } else {
                s.to_string()
            }
        })
        .collect::<Vec<_>>()
        .join("/");
    if params.is_empty() {
        Some((name, format!("() => '{string}' as const")))
    } else {
        Some((name, format!("({params}) => `{string}` as const")))
    }
}

#[test]
fn route_functions() {
    assert_eq!(
        route_function("message/cancel"),
        Some(RouteFunction {
            name: "messageCancel".to_string(),
            function: "() => 'message/cancel' as const".to_string(),
        })
    );
    assert_eq!(
        route_function("users/{user_id}/posts/{post_id}"),
        Some(RouteFunction {
            name: "userPost".to_string(),
            function: "(userId: string, postId: string) => `users/${userId}/posts/${postId}` as const"
                .to_string(),
        })
    );
    assert_eq!(
        route_function("users/{user_id}/posts"),
        Some(RouteFunction {
            name: "userPosts".to_string(),
            function: "(userId: string) => `users/${userId}/posts` as const".to_string(),
        })
    );
    assert_eq!(route_function(""), None);
    assert_eq!(route_function("{id}"), None);
    assert_eq!(route_function("--/__"), None);
    for path in [
        "models", "api/v1/users", "api/v1/users/{id}", "a-b/c_d/{e_f_g}", "{a}/b/{c}",
        "S/{__x__}", "chats/{{id}}/x", "classes/{Class_ID}/{x}", "s", "s/{}", "a//b",
        "\u{e9}t\u{e9}s/{\u{e9}_\u{e0}}",
    ] {
        let expected = reference_route_function(path)
            .map(|(name, function)| RouteFunction { name, function });
        assert_eq!(route_function(path), expected, "{path}");
    }
    assert_eq!(trim_path("//api/v1/"), "api/v1");
    assert_eq!(trim_path("/"), "");
    assert_eq!(trim_path("a"), "a");
    assert_eq!(route_comment_path("users/{user_id}"), "users/{user.id}");
}

use dns_ingress::config::RewriteConfig;
use dns_ingress::rewriters::base::BaseSniRewriter;

#[test]
fn test_rewriter_empty_sni() {
    let config = RewriteConfig {
        base_domains: vec!["example.com".to_string()],
        target_suffix: ".example.cn".to_string(),
    };
    let rewriter = BaseSniRewriter::new(config);
    let result = rewriter.rewrite("");
    assert!(result.is_none(), "Empty SNI should return None");
}

#[test]
fn test_rewriter_empty_base_domains() {
    let config = RewriteConfig {
        base_domains: vec![],
        target_suffix: ".example.cn".to_string(),
    };
    let rewriter = BaseSniRewriter::new(config);
    let result = rewriter.rewrite("www.example.com");
    assert!(result.is_none(), "Empty base domains should return None");
}

#[test]
fn test_rewriter_invalid_target_suffix() {
    let config = RewriteConfig {
        base_domains: vec!["example.com".to_string()],
        target_suffix: "example.cn".to_string(), // Missing leading dot
    };
    let rewriter = BaseSniRewriter::new(config);
    let _result = rewriter.rewrite("www.example.com");
}

#[test]
fn test_rewriter_no_prefix() {
    let config = RewriteConfig {
        base_domains: vec!["example.com".to_string()],
        target_suffix: ".example.cn".to_string(),
    };
    let rewriter = BaseSniRewriter::new(config);
    let result = rewriter.rewrite("example.com");
    assert!(
        result.is_none(),
        "Hostname without prefix should return None"
    );
}

#[test]
fn test_rewriter_rejects_unmatched_domain() {
    let config = RewriteConfig {
        base_domains: vec!["example.com".to_string()],
        target_suffix: ".example.cn".to_string(),
    };
    let rewriter = BaseSniRewriter::new(config);
    let result = rewriter.rewrite("other.com");
    assert!(
        result.is_none(),
        "Unmatched domains must not bypass routing"
    );
}

#[test]
fn test_rewriter_multiple_base_domains() {
    let config = RewriteConfig {
        base_domains: vec![
            "example.com".to_string(),
            "example.org".to_string(),
            "example.net".to_string(),
        ],
        target_suffix: ".example.cn".to_string(),
    };
    let rewriter = BaseSniRewriter::new(config);

    // Test first domain
    let result1 = rewriter.rewrite("www.example.com");
    assert!(result1.is_some());
    assert_eq!(result1.unwrap().target_hostname, "www.example.cn");

    // Test second domain
    let result2 = rewriter.rewrite("api.example.org");
    assert!(result2.is_some());
    assert_eq!(result2.unwrap().target_hostname, "api.example.cn");

    // Test third domain
    let result3 = rewriter.rewrite("test.example.net");
    assert!(result3.is_some());
    assert_eq!(result3.unwrap().target_hostname, "test.example.cn");
}

#[test]
fn test_rewriter_long_prefix() {
    let config = RewriteConfig {
        base_domains: vec!["example.com".to_string()],
        target_suffix: ".example.cn".to_string(),
    };
    let rewriter = BaseSniRewriter::new(config);
    let result = rewriter.rewrite("very-long-prefix-name.example.com");
    assert!(result.is_some());
    let rewrite_result = result.unwrap();
    assert_eq!(
        rewrite_result.prefix, "very-long-prefix-name",
        "Should extract long prefix correctly"
    );
    assert_eq!(
        rewrite_result.target_hostname,
        "very-long-prefix-name.example.cn"
    );
}

#[test]
fn test_rewriter_special_characters_in_prefix() {
    let config = RewriteConfig {
        base_domains: vec!["example.com".to_string()],
        target_suffix: ".example.cn".to_string(),
    };
    let rewriter = BaseSniRewriter::new(config);
    // Note: DNS hostnames typically don't allow special characters,
    // but we test that the rewriter handles them gracefully
    let result = rewriter.rewrite("test-123.example.com");
    assert!(result.is_some());
    let rewrite_result = result.unwrap();
    assert_eq!(rewrite_result.prefix, "test-123");
}

#[test]
fn test_rewriter_case_sensitivity() {
    let config = RewriteConfig {
        base_domains: vec!["Example.COM".to_string()], // Uppercase
        target_suffix: ".example.cn".to_string(),
    };
    let rewriter = BaseSniRewriter::new(config);
    // DNS names are case-insensitive, including configured base domains.
    let result = rewriter.rewrite("WWW.EXAMPLE.COM");
    assert!(result.is_some(), "Case-insensitive matching should succeed");
}

#[test]
fn test_rewriter_repeated_rewrite_behavior() {
    let config = RewriteConfig {
        base_domains: vec!["example.com".to_string()],
        target_suffix: ".example.cn".to_string(),
    };
    let rewriter = BaseSniRewriter::new(config);

    // First rewrite
    let result1 = rewriter.rewrite("www.example.com");
    assert!(result1.is_some());

    // The rewriter is intentionally stateless; repeated input must remain stable.
    let result2 = rewriter.rewrite("www.example.com");
    assert!(result2.is_some());
    assert_eq!(
        result2.unwrap().target_hostname,
        "www.example.cn",
        "Second rewrite should return same result"
    );
}

fn rewriter(bases: &[&str], suffix: &str) -> BaseSniRewriter {
    BaseSniRewriter::new(RewriteConfig {
        base_domains: bases.iter().map(|base| base.to_string()).collect(),
        target_suffix: suffix.to_string(),
    })
}

#[test]
fn a_suffix_without_its_dot_rewrites_nothing() {
    assert!(rewriter(&["example.com"], "example.cn").rewrite("www.example.com").is_none());
}

#[test]
fn case_and_final_dots_do_not_matter() {
    let rewriter = rewriter(&["example.com."], ".Example.CN");
    for name in ["www.example.com", "WWW.Example.com", "www.example.com.", "www.example.com.."] {
        let result = rewriter.rewrite(name).unwrap();
        assert_eq!(result.original, "www.example.com");
        assert_eq!(result.prefix, "www");
        assert_eq!(result.target_hostname, "www.example.cn");
    }
}

#[test]
fn only_proper_subdomains_are_rewritten() {
    let rewriter = rewriter(&["example.com"], ".example.cn");
    assert!(rewriter.rewrite("badexample.com").is_none());
    assert!(rewriter.rewrite(".example.com").is_none());
    assert_eq!(rewriter.rewrite("a.b.example.com").unwrap().prefix, "a.b");
    assert!(rewriter.rewrite("a_b.example.com").is_none());
    assert_eq!(rewriter.extract_prefix("www.example.com"), Some("www".to_string()));
    assert_eq!(rewriter.extract_prefix("www.example.org"), None);
    assert_eq!(rewriter.build_target_hostname("www"), "www.example.cn");
}

#[test]
fn the_first_base_domain_that_fits_decides() {
    let rewriter = rewriter(&["example.com", "b.example.com"], ".cn");
    assert_eq!(rewriter.rewrite("a.b.example.com").unwrap().target_hostname, "a.b.cn");
}

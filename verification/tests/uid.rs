use stylex_rewriter::uid_generator::UidGenerator;

#[test]
fn consecutive_identifiers_are_distinct() {
    let mut generator = UidGenerator::new("inject");
    let first = generator.generate_ident();
    let second = generator.generate_ident();
    assert_ne!(first, second);
}

#[test]
fn identifiers_carry_prefix_and_counter() {
    let mut generator = UidGenerator::new("inject");
    assert_eq!(generator.generate_ident(), "_inject1");
    assert_eq!(generator.generate_ident(), "_inject2");
    let mut other = UidGenerator::new("tmp");
    assert_eq!(other.generate_ident(), "_tmp1");
}

#[test]
fn many_identifiers_are_pairwise_distinct() {
    let mut generator = UidGenerator::new("x");
    let names: Vec<String> = (0..25).map(|_| generator.generate_ident()).collect();
    for i in 0..names.len() {
        for j in 0..names.len() {
            if i != j {
                assert_ne!(names[i], names[j]);
            }
        }
    }
}

#[test]
fn counters_above_nine_render_all_digits() {
    let mut generator = UidGenerator::new("n");
    let mut last = String::new();
    for _ in 0..12 {
        last = generator.generate_ident();
    }
    assert_eq!(last, "_n12");
}

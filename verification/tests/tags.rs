use platform::effect::{next_effect, refcount_address, Effect};
use platform::tag::{get_tag, remove_tag};

#[test]
fn get_tag_reads_low_three_bits() {
    assert_eq!(get_tag(0x1000), 0);
    assert_eq!(get_tag(0x1003), 3);
    assert_eq!(get_tag(0x1007), 7);
    assert_eq!(get_tag(usize::MAX), 7);
    assert_eq!(get_tag(0x1_0000_0005), 5);
}

#[test]
fn remove_tag_clears_low_three_bits() {
    assert_eq!(remove_tag(0x1000), 0x1000);
    assert_eq!(remove_tag(0x1003), 0x1000);
    assert_eq!(remove_tag(0x1007), 0x1000);
    assert_eq!(remove_tag(usize::MAX), usize::MAX - 7);
    assert_eq!(remove_tag(7), 0);
}

#[test]
fn tag_split_and_roundtrip() {
    for base in [0usize, 8, 0x1000, 0xFFFF_FFF8, usize::MAX - 7] {
        for tag in 0..8usize {
            let p = base + tag;
            assert_eq!(get_tag(p) as usize, tag);
            assert_eq!(remove_tag(p), base);
            assert_eq!(remove_tag(remove_tag(p)), remove_tag(p));
            assert_eq!(get_tag(remove_tag(p)), 0);
        }
    }
}

#[test]
fn db_effects_lay_out_query_params_and_closure() {
    assert_eq!(
        next_effect(0x1000),
        Effect::DbExecute { query: 0x1000, params: 0x1018, resume: 0x1030 }
    );
    assert_eq!(
        next_effect(0x1001),
        Effect::DbFetchAll { query: 0x1000, params: 0x1018, resume: 0x1030 }
    );
    assert_eq!(
        next_effect(0x1002),
        Effect::DbFetchOne { query: 0x1000, params: 0x1018, resume: 0x1030 }
    );
}

#[test]
fn body_response_and_unknown_effects() {
    assert_eq!(next_effect(0x2003), Effect::LoadBody { resume: 0x2000 });
    assert_eq!(next_effect(0x2004), Effect::Respond { response: 0x2000 });
    assert_eq!(next_effect(0x2005), Effect::Fail);
    assert_eq!(next_effect(0x2006), Effect::Fail);
    assert_eq!(next_effect(0x2007), Effect::Fail);
}

#[test]
fn refcount_sits_before_untagged_address() {
    assert_eq!(refcount_address(0x1000), 0xFF8);
    assert_eq!(refcount_address(0x1004), 0xFF8);
    assert_eq!(refcount_address(0x0F), 0);
}

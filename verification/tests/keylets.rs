use xrpl_hooks::keylet::{util_keylet, KeyletType};

#[test]
fn zero_argument_variants_send_all_slots_empty() {
    for kt in [
        KeyletType::Amendments,
        KeyletType::Fees,
        KeyletType::NegativeUnl,
        KeyletType::EmittedDir,
        KeyletType::Skip(None),
    ] {
        let c = util_keylet(&kt);
        assert!(c.bufs.is_empty());
        assert!(c.ints.is_empty());
    }
}

#[test]
fn zero_argument_variant_tags() {
    assert_eq!(util_keylet(&KeyletType::Amendments).keylet_type, 4);
    assert_eq!(util_keylet(&KeyletType::Fees).keylet_type, 7);
    assert_eq!(util_keylet(&KeyletType::NegativeUnl).keylet_type, 8);
    assert_eq!(util_keylet(&KeyletType::EmittedDir).keylet_type, 12);
}

#[test]
fn skip_routes_through_the_integer_path() {
    let c = util_keylet(&KeyletType::Skip(Some((77, 3))));
    assert_eq!(c.keylet_type, 6);
    assert!(c.bufs.is_empty());
    assert_eq!(c.ints, vec![77, 3]);
}

#[test]
fn check_routes_through_the_buffer_path() {
    let accid = vec![9u8; 20];
    let c = util_keylet(&KeyletType::Check(accid.clone(), 55));
    assert_eq!(c.keylet_type, 14);
    assert_eq!(c.bufs, vec![accid]);
    assert_eq!(c.ints, vec![55]);
}

#[test]
fn skip_and_check_never_collide() {
    let skip = util_keylet(&KeyletType::Skip(Some((1, 2))));
    let check = util_keylet(&KeyletType::Check(vec![0u8; 20], 1));
    assert_ne!(skip.keylet_type, check.keylet_type);
    assert_ne!((skip.bufs.len(), skip.ints.len()), (check.bufs.len(), check.ints.len()));
}

#[test]
fn buffers_pack_in_declared_order() {
    let high = vec![1u8; 20];
    let low = vec![2u8; 20];
    let currency = vec![3u8; 20];
    let c = util_keylet(&KeyletType::Line(high.clone(), low.clone(), currency.clone()));
    assert_eq!(c.keylet_type, 9);
    assert_eq!(c.bufs, vec![high, low, currency]);
    assert!(c.ints.is_empty());

    let owner = vec![4u8; 20];
    let dest = vec![5u8; 20];
    let c = util_keylet(&KeyletType::Paychan(owner.clone(), dest.clone(), 12));
    assert_eq!(c.keylet_type, 20);
    assert_eq!(c.bufs, vec![owner, dest]);
    assert_eq!(c.ints, vec![12]);

    let acc = vec![6u8; 20];
    let key = vec![7u8; 32];
    let c = util_keylet(&KeyletType::HookState(acc.clone(), key.clone()));
    assert_eq!(c.keylet_type, 2);
    assert_eq!(c.bufs, vec![acc, key]);
    assert!(c.ints.is_empty());
}

#[test]
fn one_buffer_variants() {
    let accid = vec![8u8; 20];
    assert_eq!(util_keylet(&KeyletType::Hook(accid.clone())).keylet_type, 1);
    assert_eq!(util_keylet(&KeyletType::Account(accid.clone())).keylet_type, 3);
    assert_eq!(util_keylet(&KeyletType::Child(accid.clone())).keylet_type, 5);
    assert_eq!(util_keylet(&KeyletType::Signers(accid.clone())).keylet_type, 13);
    assert_eq!(util_keylet(&KeyletType::Unchecked(accid.clone())).keylet_type, 16);
    assert_eq!(util_keylet(&KeyletType::OwnerDir(accid.clone())).keylet_type, 17);
    assert_eq!(util_keylet(&KeyletType::Emitted(accid.clone())).keylet_type, 21);
    let c = util_keylet(&KeyletType::Hook(accid.clone()));
    assert_eq!(c.bufs, vec![accid]);
    assert!(c.ints.is_empty());
}

#[test]
fn every_variant_tag_is_distinct() {
    let accid = vec![0u8; 20];
    let key = vec![0u8; 32];
    let variants = [
        KeyletType::Hook(accid.clone()),
        KeyletType::HookState(accid.clone(), key.clone()),
        KeyletType::Account(accid.clone()),
        KeyletType::Amendments,
        KeyletType::Child(key.clone()),
        KeyletType::Skip(None),
        KeyletType::Fees,
        KeyletType::NegativeUnl,
        KeyletType::Line(accid.clone(), accid.clone(), accid.clone()),
        KeyletType::Offer(accid.clone(), 1),
        KeyletType::Quality(key.clone(), 1, 2),
        KeyletType::EmittedDir,
        KeyletType::Signers(accid.clone()),
        KeyletType::Check(accid.clone(), 1),
        KeyletType::DepositPreauth(accid.clone(), accid.clone()),
        KeyletType::Unchecked(key.clone()),
        KeyletType::OwnerDir(accid.clone()),
        KeyletType::Page(key.clone(), 1, 2),
        KeyletType::Escrow(accid.clone(), 1),
        KeyletType::Paychan(accid.clone(), accid.clone(), 1),
        KeyletType::Emitted(key.clone()),
    ];
    let mut tags: Vec<u32> = variants.iter().map(|kt| util_keylet(kt).keylet_type).collect();
    tags.sort();
    for pair in tags.windows(2) {
        assert_ne!(pair[0], pair[1]);
    }
    assert_eq!(tags.first(), Some(&1));
    assert_eq!(tags.last(), Some(&21));
}

#[test]
fn integer_slots_follow_buffers() {
    let key = vec![1u8; 34];
    let c = util_keylet(&KeyletType::Quality(key.clone(), 0xAAAA, 0xBBBB));
    assert_eq!(c.keylet_type, 11);
    assert_eq!(c.bufs, vec![key]);
    assert_eq!(c.ints, vec![0xAAAA, 0xBBBB]);

    let root = vec![2u8; 32];
    let c = util_keylet(&KeyletType::Page(root.clone(), 7, 9));
    assert_eq!(c.keylet_type, 18);
    assert_eq!(c.bufs, vec![root]);
    assert_eq!(c.ints, vec![7, 9]);

    let owner = vec![3u8; 20];
    let c = util_keylet(&KeyletType::Escrow(owner.clone(), 123));
    assert_eq!(c.keylet_type, 19);
    assert_eq!(c.bufs, vec![owner]);
    assert_eq!(c.ints, vec![123]);

    let owner = vec![4u8; 20];
    let c = util_keylet(&KeyletType::Offer(owner.clone(), 321));
    assert_eq!(c.keylet_type, 10);
    assert_eq!(c.bufs, vec![owner]);
    assert_eq!(c.ints, vec![321]);
}

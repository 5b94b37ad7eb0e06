use spelunking_clock::keymod::KeyMod;

#[test]
fn key_mod_set_bit_count() {
    assert_eq!(KeyMod::empty().count(), 0);
    assert_eq!(KeyMod::shift().count(), 1);
    assert_eq!(KeyMod::ctrl().count(), 1);
    assert_eq!(KeyMod::alt().count(), 1);
    assert_eq!(KeyMod::logo().count(), 1);
    assert_eq!((KeyMod::shift() | KeyMod::ctrl()).count(), 2);
    assert_eq!((KeyMod::shift() | KeyMod::logo()).count(), 2);
    assert_eq!((KeyMod::logo() | KeyMod::shift()).count(), 2);
    assert_eq!((KeyMod::logo() | KeyMod::shift() | KeyMod::alt()).count(), 3);
    assert_eq!((!KeyMod::alt()).count(), 3);
}

#[test]
fn types_key_mod_conversions() {
    assert_eq!(KeyMod::empty(), KeyMod::from_flags(false, false, false, false));
    assert_eq!(KeyMod::shift(), KeyMod::from_flags(true, false, false, false));
    assert_eq!(
        KeyMod::shift() | KeyMod::alt(),
        KeyMod::from_flags(true, false, true, false)
    );
    assert_eq!(
        KeyMod::shift() | KeyMod::alt() | KeyMod::ctrl(),
        KeyMod::from_flags(true, true, true, false)
    );
    assert_eq!(
        KeyMod::shift() - KeyMod::alt(),
        KeyMod::from_flags(true, false, false, false)
    );
    assert_eq!(
        (KeyMod::shift() | KeyMod::alt()) - KeyMod::alt(),
        KeyMod::from_flags(true, false, false, false)
    );
    assert_eq!(
        KeyMod::shift() - (KeyMod::alt() | KeyMod::shift()),
        KeyMod::from_flags(false, false, false, false)
    );
}

#[test]
fn keymod_key_mod_conversions() {
    assert_eq!(KeyMod::none(), KeyMod::from_flags(false, false, false, false));
    assert_eq!(KeyMod::logo(), KeyMod::from_flags(false, false, false, true));
    assert_eq!(
        KeyMod::ctrl() | KeyMod::logo(),
        KeyMod::from_flags(false, true, false, true)
    );
    assert_eq!(
        KeyMod::all(),
        KeyMod::from_flags(true, true, true, true)
    );
    assert_eq!(
        KeyMod::all() - KeyMod::ctrl(),
        KeyMod::from_flags(true, false, true, true)
    );
    assert_eq!(
        !(KeyMod::shift() | KeyMod::alt()),
        KeyMod::from_flags(false, true, false, true)
    );
    assert_eq!(
        KeyMod::from_bits_truncate(0xFF),
        KeyMod::from_flags(true, true, true, true)
    );
}

#[test]
fn key_mod_contains() {
    let held = KeyMod::ctrl() | KeyMod::shift();
    assert!(held.contains(KeyMod::ctrl()));
    assert!(held.contains(KeyMod::none()));
    assert!(!held.contains(KeyMod::alt()));
    assert!(!KeyMod::ctrl().contains(held));
    assert_eq!(held.bits(), 3);
    assert!(KeyMod::default().is_empty());
}

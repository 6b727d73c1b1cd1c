use hanabi::text::{owned, push_decimal, push_hex, str_eq, str_lt};
use hanabi::{
    CpuValue, EffectAssetLoader, EffectAssetLoaderError, ModifierContext, ParticleGroupSet,
    Spawner,
};

#[test]
fn numerals_are_written_in_full() {
    let mut s = String::from(">");
    push_hex(&mut s, 0x1234_5678_9ABC_DEF0, 16);
    assert_eq!(s, ">123456789ABCDEF0");
    let mut s = String::new();
    push_hex(&mut s, 0xABC, 8);
    assert_eq!(s, "00000ABC");
    let mut s = String::new();
    push_hex(&mut s, 0x1FF, 2);
    assert_eq!(s, "FF");
    let mut s = String::from("x");
    push_hex(&mut s, 7, 0);
    assert_eq!(s, "x");
    for n in [0_u32, 7, 9, 10, 99, 100, 4096, 1_000_000, u32::MAX] {
        let mut s = String::from("n=");
        push_decimal(&mut s, n);
        assert_eq!(s, format!("n={n}"));
    }
    for n in [0_u64, 1, 0xF, 0x10, 0xDEAD_BEEF, u64::MAX] {
        let mut s = String::new();
        push_hex(&mut s, n, 16);
        assert_eq!(s, format!("{n:016X}"));
    }
}

#[test]
fn names_compare_as_their_bytes_do() {
    let names = ["", "a", "A", "ab", "abc", "b", "ba", "é", "z", "日本"];
    for a in names {
        for b in names {
            assert_eq!(str_lt(a, b), a.as_bytes() < b.as_bytes());
            assert_eq!(str_eq(a, b), a == b);
        }
    }
    assert_eq!(owned("héllo"), "héllo");
}

#[test]
fn group_sets_hold_the_groups_named() {
    let none = ParticleGroupSet::none();
    let all = ParticleGroupSet::all();
    let third = ParticleGroupSet::single(3);
    let last = ParticleGroupSet::single(31);
    for i in 0..40 {
        assert!(!none.contains(i));
        assert_eq!(all.contains(i), i < 32);
        assert_eq!(third.contains(i), i == 3);
        assert_eq!(last.contains(i), i == 31);
        assert_eq!(third.union(last).contains(i), i == 3 || i == 31);
    }
    assert_eq!(third.mask, 8);
    assert_eq!(ParticleGroupSet::single(0).mask, 1);
    assert_eq!(all.mask, u32::MAX);
    assert_eq!(none.union(third), third);
    assert_eq!(all.union(third), all);
}

#[test]
fn contexts_are_sets_of_phases() {
    let all = [
        ModifierContext::Empty,
        ModifierContext::Init,
        ModifierContext::Update,
        ModifierContext::InitUpdate,
        ModifierContext::Render,
        ModifierContext::InitRender,
        ModifierContext::UpdateRender,
        ModifierContext::All,
    ];
    for (bits, a) in all.iter().enumerate() {
        assert_eq!(a.bits() as usize, bits);
        assert_eq!(ModifierContext::from_bits(bits as u8), *a);
        assert_eq!(ModifierContext::from_bits(bits as u8 | 0xF8), *a);
        assert_eq!(a.init(), bits & 1 != 0);
        assert_eq!(a.update(), bits & 2 != 0);
        assert_eq!(a.render(), bits & 4 != 0);
        assert_eq!(a.is_single(), bits == 1 || bits == 2 || bits == 4);
        assert_eq!(ModifierContext::of(a.init(), a.update(), a.render()), *a);
        for (other_bits, b) in all.iter().enumerate() {
            assert_eq!(a.contains(*b), bits & other_bits == other_bits);
            assert_eq!(a.union(*b).bits() as usize, bits | other_bits);
        }
    }
    assert!(ModifierContext::InitUpdate.contains(ModifierContext::Init));
    assert!(!ModifierContext::Init.contains(ModifierContext::Update));
}

#[test]
fn spawners_are_made_as_named() {
    let thirty = CpuValue::Single(30.0_f32.to_bits());
    let zero = CpuValue::Single(0.0_f32.to_bits());
    let one = CpuValue::Single(1.0_f32.to_bits());
    let forever = CpuValue::Single(f32::INFINITY.to_bits());
    let rate = Spawner::rate(thirty);
    assert_eq!(
        rate,
        Spawner {
            num_particles: thirty,
            spawn_time: one,
            period: one,
            starts_active: true,
            starts_immediately: true
        }
    );
    let once = Spawner::once(thirty, false);
    assert_eq!(
        once,
        Spawner {
            num_particles: thirty,
            spawn_time: zero,
            period: forever,
            starts_active: true,
            starts_immediately: false
        }
    );
    let range = CpuValue::Uniform(1.0_f32.to_bits(), 2.0_f32.to_bits());
    let burst = Spawner::burst(thirty, range);
    assert_eq!(burst.period, range);
    assert_eq!(burst.spawn_time, zero);
    assert!(burst.starts_immediately);
    assert!(!burst.with_starts_active(false).starts_active);
    assert_eq!(burst.with_starts_active(false).num_particles, thirty);
    let idle = Spawner::default();
    assert_eq!(idle.num_particles, zero);
    assert!(!idle.starts_active);
}

#[test]
fn loader_takes_effect_files_and_tells_its_errors_apart() {
    assert_eq!(EffectAssetLoader.extensions(), vec!["effect"]);
    assert_eq!(EffectAssetLoader::default(), EffectAssetLoader);
    let io = EffectAssetLoaderError::Io("unexpected end of file".to_string());
    let ron = EffectAssetLoaderError::Ron("1:1: expected struct".to_string());
    assert!(io.is_io());
    assert!(!ron.is_io());
    assert_eq!(
        io.message(),
        "An IO error occurred during loading of a particle effect"
    );
    assert_eq!(
        ron.message(),
        "A RON format error occurred during loading of a particle effect"
    );
    assert_ne!(io, ron);
}

use multindex::are_disjoint::AreAllDisjoint;
use multindex::index_argument::{IndexArgument, IndexKind, PrenormIndex};
use multindex::index_properties::{IndexArgumentsAndStats, IndexProperties};
use multindex::test_utils::bitset::BitSet;

use std::convert::TryInto;

const MAX_SLICE_LEN: usize = 64;

// The length of covered integers up to usize max.
const TO_USIZE_MAX: usize = 32;

struct TestRng(u64);

impl TestRng {
    fn next(&mut self) -> u64 {
        let mut x = self.0;
        x ^= x << 13;
        x ^= x >> 7;
        x ^= x << 17;
        self.0 = x;
        x
    }

    fn usize_below(&mut self, n: usize) -> usize {
        (self.next() % (n as u64)) as usize
    }

    fn bool(&mut self) -> bool {
        self.next() & 1 == 1
    }
}

fn rand_index(state: &mut TestRng) -> usize {
    state
        .usize_below(MAX_SLICE_LEN * 2 + TO_USIZE_MAX)
        .wrapping_sub(TO_USIZE_MAX)
}

fn rand_optusize(state: &mut TestRng) -> Option<usize> {
    if state.bool() {
        Some(rand_index(state))
    } else {
        None
    }
}

fn generate_prenormindex(state: &mut TestRng) -> PrenormIndex {
    match state.usize_below(100) + 1 {
        1..=25 => PrenormIndex::Index(rand_index(state)),
        26..=90 => PrenormIndex::Range {
            start: rand_optusize(state),
            end: rand_optusize(state),
        },
        _ => PrenormIndex::InclusiveToMax {
            start: rand_optusize(state),
        },
    }
}

fn check_invariants(indarg: &IndexArgument) {
    match indarg.index_kind() {
        IndexKind::Index => {
            assert_eq!(indarg.len_else_zero(), 1);
            assert_eq!(indarg.end(), Some(indarg.saturated_end()));
        }
        IndexKind::Range => {
            assert_eq!(indarg.end(), Some(indarg.saturated_end()));
            assert_eq!(
                indarg.len_else_zero(),
                indarg.saturated_end() - indarg.start(),
            );
        }
        IndexKind::RangeFrom => {
            assert_eq!(indarg.end(), None);
            assert_eq!(indarg.saturated_end(), usize::MAX);
            assert_eq!(indarg.len_else_zero(), 0);
        }
    }
}

// Whenever the checker accepts a descriptor list as disjoint, marking each
// span's elements in a bit set must never hit an already-marked position.
#[test]
fn range_nonoverlapping() {
    let mut rng = TestRng(0x9e37_79b9_7f4a_7c15);
    let mut prenorms: Vec<PrenormIndex> = Vec::with_capacity(4);

    for _ in 0..100000 {
        let mut set = BitSet::empty();

        'inner: loop {
            let count = rng.usize_below(5);
            prenorms.clear();
            for _ in 0..count {
                let p = generate_prenormindex(&mut rng);
                prenorms.push(p);
            }

            let IndexArgumentsAndStats { stats, ind_args } =
                match IndexArgument::many_from_prenorm(&prenorms) {
                    Ok(x) => x,
                    Err(_) => continue 'inner,
                };

            let ind_props = IndexProperties::new(&ind_args, &stats, AreAllDisjoint::Yes);

            if ind_props
                .are_disjoint
                .check_is_expected(&AreAllDisjoint::<()>::Yes)
                .is_err()
            {
                continue 'inner;
            }

            assert_eq!(MAX_SLICE_LEN, set.capacity());

            fn tou8(n: usize) -> u8 {
                std::cmp::min(n, MAX_SLICE_LEN).try_into().unwrap()
            }

            for ia in &ind_args {
                let start: u8 = tou8(ia.start());
                let end: u8 = tou8(ia.end().unwrap_or(set.capacity()));

                check_invariants(ia);

                if let Some(already_set) = (start..end).find(|x| set.is_set(*x)) {
                    panic!(
                        "\n\
                         The {} bit was already_set in\n\t{:?}\n\
                         Vec<PrenormIndex>: {:#?}\n\
                         Vec<IndexArgument>: {:#?}\n\
                        ",
                        already_set, set, prenorms, ind_args,
                    );
                }

                set.set_range(start..end);
            }

            break 'inner;
        }
    }
}

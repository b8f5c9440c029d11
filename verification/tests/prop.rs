use probe::{Cmd, Core};

// Naive reference implementation: a plain String + char index cursor.
#[derive(Debug, Clone, Default)]
struct Naive {
    s: Vec<char>,
    cur: usize,
}
impl Naive {
    fn apply(&mut self, c: Cmd) {
        match c {
            Cmd::Insert(ch) => {
                self.s.insert(self.cur, ch);
                self.cur += 1
            }
            Cmd::NewLine => {
                self.s.insert(self.cur, '\n');
                self.cur += 1
            }
            Cmd::MoveLeft => self.cur = self.cur.saturating_sub(1),
            Cmd::MoveRight => self.cur = (self.cur + 1).min(self.s.len()),
            Cmd::DeleteBack => {
                if self.cur > 0 {
                    self.s.remove(self.cur - 1);
                    self.cur -= 1
                }
            }
            _ => {}
        }
    }
    fn text(&self) -> String {
        self.s.iter().collect()
    }
}

/// A small deterministic generator of commands, weighted
/// 4 inserts : 1 newline : 2 left : 2 right : 2 delete; inserted chars are
/// drawn from the whole range of Unicode scalar values.
struct Gen(u64);
impl Gen {
    fn next(&mut self) -> u64 {
        self.0 = self.0.wrapping_mul(6364136223846793005).wrapping_add(1442695040888963407);
        self.0 >> 33
    }
    fn cmd(&mut self) -> Cmd {
        let r = self.next() % 11;
        match r {
            0..=3 => loop {
                let v = (self.next() % 0x11_0000) as u32;
                if let Some(ch) = char::from_u32(v) {
                    break Cmd::Insert(ch);
                }
            },
            4 => Cmd::NewLine,
            5 | 6 => Cmd::MoveLeft,
            7 | 8 => Cmd::MoveRight,
            _ => Cmd::DeleteBack,
        }
    }
}

#[test]
fn rope_matches_naive() {
    for seed in 0..500u64 {
        let mut g = Gen(seed);
        let n = (g.next() % 200) as usize;
        let mut core = Core::new("");
        let mut naive = Naive::default();
        for _ in 0..n {
            let c = g.cmd();
            core.apply(c);
            naive.apply(c);
        }
        assert_eq!(core.text.to_string(), naive.text());
        assert_eq!(core.cursor, naive.cur);
        // cursor must always be a valid char index
        assert!(core.cursor <= core.text.len_chars());
    }
}

use vstd::prelude::*;

verus! {

/// One of two panes, numbered 0 and 1.
#[derive(Debug, Clone, Copy, PartialEq, Eq, Structural)]
pub enum SelectedBlock {
    List,
    Content,
}

impl SelectedBlock {
    pub open spec fn index(self) -> int {
        match self {
            SelectedBlock::List => 0,
            SelectedBlock::Content => 1,
        }
    }

    /// The pane with number `n`, if there is one.
    pub fn from_repr(n: u8) -> (r: Option<SelectedBlock>)
        ensures
            n == 0 ==> r == Some(SelectedBlock::List),
            n == 1 ==> r == Some(SelectedBlock::Content),
            n > 1 ==> r is None,
    {
        if n == 0 {
            Some(SelectedBlock::List)
        } else if n == 1 {
            Some(SelectedBlock::Content)
        } else {
            None
        }
    }

    /// The pane `amount` places away; a move below 0 or past 255 lands on
    /// pane 0, and one past the last pane stays where it is.
    pub fn move_by(self, amount: i8) -> (r: SelectedBlock)
        ensures
            ({
                let t = self.index() + amount;
                let n = if 0 <= t <= 255 {
                    t
                } else {
                    0
                };
                r == if n == 0 {
                    SelectedBlock::List
                } else if n == 1 {
                    SelectedBlock::Content
                } else {
                    self
                }
            }),
    {
        let current: i16 = match self {
            SelectedBlock::List => 0,
            SelectedBlock::Content => 1,
        };
        let t: i16 = current + amount as i16;
        let n: u8 = if 0 <= t && t <= 255 {
            t as u8
        } else {
            0
        };
        match SelectedBlock::from_repr(n) {
            Some(b) => b,
            None => self,
        }
    }

    pub fn next(self) -> (r: SelectedBlock)
        ensures
            r == SelectedBlock::Content,
    {
        self.move_by(1)
    }

    pub fn prev(self) -> (r: SelectedBlock)
        ensures
            r == SelectedBlock::List,
    {
        self.move_by(-1)
    }
}

} // verus!

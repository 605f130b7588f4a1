//! Joining the transcripts of the windows into one.

use vstd::prelude::*;

verus! {

/// The transcript of one window, or of a whole recording: the text and the
/// tokens it was decoded from.
#[derive(Clone, Debug, PartialEq, Eq)]
pub struct TranscriptionResult {
    pub text: String,
    pub tokens: Vec<u32>,
}

/// The texts joined in order, with one space between two neighbours.
pub open spec fn spec_joined(texts: Seq<Seq<char>>) -> Seq<char>
    decreases texts.len(),
{
    if texts.len() == 0 {
        Seq::empty()
    } else if texts.len() == 1 {
        texts[0]
    } else {
        spec_joined(texts.drop_last()) + seq![' '] + texts.last()
    }
}

/// The token sequences laid end to end, in order.
pub open spec fn spec_concat(lists: Seq<Seq<u32>>) -> Seq<u32>
    decreases lists.len(),
{
    if lists.len() == 0 {
        Seq::empty()
    } else {
        spec_concat(lists.drop_last()) + lists.last()
    }
}

/// The texts of `results`, in order.
pub open spec fn spec_texts(results: Seq<TranscriptionResult>) -> Seq<Seq<char>> {
    Seq::new(results.len(), |i: int| results[i].text@)
}

/// The token sequences of `results`, in order.
pub open spec fn spec_token_lists(results: Seq<TranscriptionResult>) -> Seq<Seq<u32>> {
    Seq::new(results.len(), |i: int| results[i].tokens@)
}

impl TranscriptionResult {
    /// The transcript of audio without samples: no text and no tokens.
    pub fn empty() -> (r: TranscriptionResult)
        ensures
            r.text@ == Seq::<char>::empty(),
            r.tokens@ == Seq::<u32>::empty(),
    {
        TranscriptionResult { text: String::new(), tokens: Vec::new() }
    }
}

/// Collects the transcripts of the windows of one recording as they come.
pub struct ChunkStitcher {
    text: String,
    tokens: Vec<u32>,
    started: bool,
}

impl ChunkStitcher {
    #[verifier::type_invariant]
    spec fn inv(self) -> bool {
        !self.started ==> self.text@.len() == 0 && self.tokens@.len() == 0
    }

    /// The text collected so far.
    pub closed spec fn spec_text(self) -> Seq<char> {
        self.text@
    }

    /// The tokens collected so far.
    pub closed spec fn spec_tokens(self) -> Seq<u32> {
        self.tokens@
    }

    /// Whether a window has been added.
    pub closed spec fn spec_started(self) -> bool {
        self.started
    }

    /// A stitcher that holds no window yet.
    pub fn new() -> (s: ChunkStitcher)
        ensures
            !s.spec_started(),
            s.spec_text() == Seq::<char>::empty(),
            s.spec_tokens() == Seq::<u32>::empty(),
    {
        ChunkStitcher { text: String::new(), tokens: Vec::new(), started: false }
    }

    /// Adds the transcript of the next window: its text behind a separating
    /// space, or as it is where it is the first, and its tokens behind those
    /// collected so far.
    pub fn add(&mut self, result: &TranscriptionResult)
        ensures
            final(self).spec_started(),
            final(self).spec_text() == (if old(self).spec_started() {
                old(self).spec_text() + seq![' '] + result.text@
            } else {
                result.text@
            }),
            final(self).spec_tokens() == old(self).spec_tokens() + result.tokens@,
    {
        proof {
            use_type_invariant(&*self);
            reveal_strlit(" ");
        }
        let mut text = String::new();
        let mut tokens: Vec<u32> = Vec::new();
        std::mem::swap(&mut self.text, &mut text);
        std::mem::swap(&mut self.tokens, &mut tokens);
        let ghost text0 = text@;
        let ghost tokens0 = tokens@;
        if self.started {
            text.append(" ");
            assert(text@ =~= text0 + seq![' ']);
        }
        text.append(result.text.as_str());
        let mut i: usize = 0;
        while i < result.tokens.len()
            invariant
                i <= result.tokens@.len(),
                tokens@ == tokens0 + result.tokens@.take(i as int),
            decreases result.tokens@.len() - i,
        {
            tokens.push(result.tokens[i]);
            i = i + 1;
            assert(tokens@ =~= tokens0 + result.tokens@.take(i as int));
        }
        assert(result.tokens@.take(i as int) =~= result.tokens@);
        assert(!self.started ==> text@ =~= result.text@);
        *self = ChunkStitcher { text, tokens, started: true };
    }

    /// The transcript of everything that was added.
    pub fn finish(self) -> (r: TranscriptionResult)
        ensures
            r.text@ == self.spec_text(),
            r.tokens@ == self.spec_tokens(),
    {
        TranscriptionResult { text: self.text, tokens: self.tokens }
    }
}

/// The transcript of a recording from the transcripts of its windows: the
/// texts joined in window order with one space between two neighbours, and
/// the tokens of all windows in order.
///
/// Where consecutive windows overlap, what was heard twice stands twice:
/// nothing is removed at the seams.
pub fn stitch(results: &Vec<TranscriptionResult>) -> (r: TranscriptionResult)
    ensures
        r.text@ == spec_joined(spec_texts(results@)),
        r.tokens@ == spec_concat(spec_token_lists(results@)),
        results@.len() == 0 ==> r.text@ == Seq::<char>::empty() && r.tokens@ == Seq::<
            u32,
        >::empty(),
        results@.len() == 1 ==> r.text@ == results@[0].text@ && r.tokens@ == results@[0].tokens@,
{
    let mut stitcher = ChunkStitcher::new();
    let mut i: usize = 0;
    while i < results.len()
        invariant
            i <= results@.len(),
            stitcher.spec_started() == (i > 0),
            stitcher.spec_text() == spec_joined(spec_texts(results@.take(i as int))),
            stitcher.spec_tokens() == spec_concat(spec_token_lists(results@.take(i as int))),
        decreases results@.len() - i,
    {
        proof {
            let before = results@.take(i as int);
            let after = results@.take(i + 1);
            assert(spec_texts(after).drop_last() =~= spec_texts(before));
            assert(spec_token_lists(after).drop_last() =~= spec_token_lists(before));
            assert(spec_texts(after).last() == results@[i as int].text@);
            assert(spec_token_lists(after).last() == results@[i as int].tokens@);
            if i == 0 {
                assert(spec_concat(spec_token_lists(before)) =~= Seq::<u32>::empty());
            }
        }
        stitcher.add(&results[i]);
        i = i + 1;
        proof {
            assert(stitcher.spec_tokens() =~= spec_concat(
                spec_token_lists(results@.take(i as int)),
            ));
        }
    }
    proof {
        assert(results@.take(i as int) =~= results@);
        if results@.len() == 1 {
            assert(spec_token_lists(results@).drop_last() =~= Seq::<Seq<u32>>::empty());
            assert(spec_concat(Seq::<Seq<u32>>::empty()) =~= Seq::<u32>::empty());
            assert(spec_token_lists(results@).last() == results@[0].tokens@);
            assert(spec_concat(spec_token_lists(results@)) =~= results@[0].tokens@);
        }
    }
    stitcher.finish()
}

} // verus!

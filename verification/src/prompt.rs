//! Building the decoder's initial token sequence.

use vstd::prelude::*;
use crate::error::PipelineError;

verus! {

/// How often `token` occurs in `tokens`.
pub open spec fn spec_count(tokens: Seq<u32>, token: u32) -> nat
    decreases tokens.len(),
{
    if tokens.len() == 0 {
        0
    } else {
        spec_count(tokens.drop_last(), token) + if tokens.last() == token {
            1nat
        } else {
            0nat
        }
    }
}

/// The occurrences in a concatenation are those of its two parts.
pub proof fn lemma_count_concat(a: Seq<u32>, b: Seq<u32>, token: u32)
    ensures
        spec_count(a + b, token) == spec_count(a, token) + spec_count(b, token),
    decreases b.len(),
{
    if b.len() == 0 {
        assert(a + b =~= a);
    } else {
        assert((a + b).drop_last() =~= a + b.drop_last());
        lemma_count_concat(a, b.drop_last(), token);
    }
}

/// A sequence that never holds `token` has no occurrence of it.
pub proof fn lemma_count_absent(tokens: Seq<u32>, token: u32)
    requires
        forall|i: int| 0 <= i < tokens.len() ==> tokens[i] != token,
    ensures
        spec_count(tokens, token) == 0,
    decreases tokens.len(),
{
    if tokens.len() > 0 {
        lemma_count_absent(tokens.drop_last(), token);
    }
}

/// A run of `n` copies of `token` has `n` occurrences of it.
pub proof fn lemma_count_run(n: nat, token: u32)
    ensures
        spec_count(Seq::new(n, |i: int| token), token) == n,
    decreases n,
{
    if n > 0 {
        assert(Seq::new(n, |i: int| token).drop_last() =~= Seq::new(
            (n - 1) as nat,
            |i: int| token,
        ));
        lemma_count_run((n - 1) as nat, token);
    }
}

/// A prefix has no more occurrences than the whole.
pub proof fn lemma_count_prefix(tokens: Seq<u32>, token: u32, i: int)
    requires
        0 <= i <= tokens.len(),
    ensures
        spec_count(tokens.take(i), token) <= spec_count(tokens, token),
        spec_count(tokens.take(i), token) <= i,
    decreases tokens.len() - i,
{
    lemma_count_bounded(tokens.take(i), token);
    if i == tokens.len() {
        assert(tokens.take(i) =~= tokens);
    } else {
        assert(tokens.take(i + 1).drop_last() =~= tokens.take(i));
        lemma_count_prefix(tokens, token, i + 1);
    }
}

/// A sequence has no more occurrences of a token than it has entries.
pub proof fn lemma_count_bounded(tokens: Seq<u32>, token: u32)
    ensures
        spec_count(tokens, token) <= tokens.len(),
    decreases tokens.len(),
{
    if tokens.len() > 0 {
        lemma_count_bounded(tokens.drop_last(), token);
    }
}

/// The control tokens that frame the audio placeholders in a prompt.
#[derive(Clone, Debug, PartialEq, Eq)]
pub struct PromptTemplate {
    /// Begin of sequence.
    pub bos: u32,
    /// Opens the instruction.
    pub inst_open: u32,
    /// Announces the audio.
    pub begin_audio: u32,
    /// Marks one position that an audio embedding will take.
    pub placeholder: u32,
    /// Closes the instruction.
    pub inst_close: u32,
    /// The tokens of the language tag.
    pub language_tag: Vec<u32>,
    /// Asks for a transcription.
    pub transcribe: u32,
}

impl PromptTemplate {
    /// A template is usable when the placeholder differs from every control
    /// token, so that a placeholder in a prompt always marks an audio
    /// position.
    pub open spec fn wf(self) -> bool {
        &&& self.bos != self.placeholder
        &&& self.inst_open != self.placeholder
        &&& self.begin_audio != self.placeholder
        &&& self.inst_close != self.placeholder
        &&& self.transcribe != self.placeholder
        &&& forall|i: int|
            0 <= i < self.language_tag@.len() ==> self.language_tag@[i] != self.placeholder
    }

    /// The prompt with `n` placeholders: begin of sequence, the opened
    /// instruction, the audio announcement, the placeholders, the closed
    /// instruction, the language tag and the request to transcribe.
    pub open spec fn spec_prompt(self, n: nat) -> Seq<u32> {
        seq![self.bos, self.inst_open, self.begin_audio] + Seq::new(n, |i: int| self.placeholder)
            + seq![self.inst_close] + self.language_tag@ + seq![self.transcribe]
    }

    /// Whether the template is usable.
    pub fn is_valid(&self) -> (ok: bool)
        ensures
            ok == self.wf(),
    {
        if self.bos == self.placeholder || self.inst_open == self.placeholder || self.begin_audio
            == self.placeholder || self.inst_close == self.placeholder || self.transcribe
            == self.placeholder {
            return false;
        }
        let mut i: usize = 0;
        while i < self.language_tag.len()
            invariant
                i <= self.language_tag@.len(),
                forall|j: int| 0 <= j < i ==> self.language_tag@[j] != self.placeholder,
            decreases self.language_tag@.len() - i,
        {
            if self.language_tag[i] == self.placeholder {
                return false;
            }
            i = i + 1;
        }
        true
    }
}

/// A prompt of a usable template holds exactly as many placeholders as were
/// asked for, at the positions that follow the audio announcement.
pub proof fn lemma_prompt_placeholders(t: PromptTemplate, n: nat)
    requires
        t.wf(),
    ensures
        t.spec_prompt(n).len() == n + 5 + t.language_tag@.len(),
        spec_count(t.spec_prompt(n), t.placeholder) == n,
        forall|i: int|
            0 <= i < t.spec_prompt(n).len() ==> (#[trigger] t.spec_prompt(n)[i] == t.placeholder
                <==> 3 <= i < 3 + n),
{
    let head = seq![t.bos, t.inst_open, t.begin_audio];
    let run = Seq::new(n, |i: int| t.placeholder);
    let close = seq![t.inst_close];
    let tail = seq![t.transcribe];
    let ph = t.placeholder;
    lemma_count_absent(head, ph);
    lemma_count_run(n, ph);
    lemma_count_absent(close, ph);
    lemma_count_absent(t.language_tag@, ph);
    lemma_count_absent(tail, ph);
    lemma_count_concat(head, run, ph);
    lemma_count_concat(head + run, close, ph);
    lemma_count_concat(head + run + close, t.language_tag@, ph);
    lemma_count_concat(head + run + close + t.language_tag@, tail, ph);
}

/// The decoder's initial token sequence for one window.
pub struct PromptSequence {
    tokens: Vec<u32>,
    placeholder: u32,
    reserved: usize,
}

impl PromptSequence {
    #[verifier::type_invariant]
    spec fn inv(self) -> bool {
        self.reserved == spec_count(self.tokens@, self.placeholder)
    }

    /// The tokens of the prompt, in order.
    pub closed spec fn view(self) -> Seq<u32> {
        self.tokens@
    }

    /// The token that marks an audio position.
    pub closed spec fn spec_placeholder(self) -> u32 {
        self.placeholder
    }

    /// The number of audio positions that the prompt reserves.
    pub closed spec fn spec_reserved(self) -> nat {
        self.reserved as nat
    }

    /// The tokens of the prompt, in order.
    pub fn tokens(&self) -> (t: &Vec<u32>)
        ensures
            t@ == self@,
    {
        &self.tokens
    }

    /// The number of tokens in the prompt.
    pub fn len(&self) -> (n: usize)
        ensures
            n == self@.len(),
    {
        self.tokens.len()
    }

    /// The token that marks an audio position.
    pub fn placeholder(&self) -> (p: u32)
        ensures
            p == self.spec_placeholder(),
    {
        self.placeholder
    }

    /// The number of audio positions that the prompt reserves: the number of
    /// placeholders among its tokens.
    pub fn reserved(&self) -> (n: usize)
        ensures
            n == self.spec_reserved(),
            n == spec_count(self@, self.spec_placeholder()),
    {
        proof {
            use_type_invariant(self);
        }
        self.reserved
    }
}

/// Builds prompts from a template.
pub struct PromptBuilder {
    template: PromptTemplate,
}

impl PromptBuilder {
    #[verifier::type_invariant]
    spec fn inv(self) -> bool {
        self.template.wf()
    }

    /// The template that the builder fills in.
    pub closed spec fn spec_template(self) -> PromptTemplate {
        self.template
    }

    /// A builder for `template`; a template whose placeholder is also one
    /// of its control tokens is a configuration error.
    pub fn new(template: PromptTemplate) -> (r: Result<PromptBuilder, PipelineError>)
        ensures
            r is Ok <==> template.wf(),
            r matches Err(e) ==> e == PipelineError::Config,
            r matches Ok(b) ==> b.spec_template() == template,
    {
        if template.is_valid() {
            Ok(PromptBuilder { template })
        } else {
            Err(PipelineError::Config)
        }
    }

    /// The template that the builder fills in.
    pub fn template(&self) -> (t: &PromptTemplate)
        ensures
            *t == self.spec_template(),
            t.wf(),
    {
        proof {
            use_type_invariant(self);
        }
        &self.template
    }

    /// The prompt that reserves `placeholders` audio positions.
    ///
    /// A prompt without audio positions is a configuration error.
    pub fn build(&self, placeholders: usize) -> (r: Result<PromptSequence, PipelineError>)
        ensures
            r is Err <==> placeholders == 0,
            r matches Err(e) ==> e == PipelineError::Config,
            r matches Ok(p) ==> {
                &&& p@ == self.spec_template().spec_prompt(placeholders as nat)
                &&& p.spec_placeholder() == self.spec_template().placeholder
                &&& p.spec_reserved() == placeholders
            },
    {
        proof {
            use_type_invariant(self);
        }
        if placeholders == 0 {
            return Err(PipelineError::Config);
        }
        let t = &self.template;
        let mut tokens: Vec<u32> = Vec::new();
        tokens.push(t.bos);
        tokens.push(t.inst_open);
        tokens.push(t.begin_audio);
        let ghost head = seq![t.bos, t.inst_open, t.begin_audio];
        assert(tokens@ =~= head);
        let mut i: usize = 0;
        while i < placeholders
            invariant
                i <= placeholders,
                head == seq![t.bos, t.inst_open, t.begin_audio],
                tokens@ == head + Seq::new(i as nat, |k: int| t.placeholder),
            decreases placeholders - i,
        {
            tokens.push(t.placeholder);
            i = i + 1;
            assert(tokens@ =~= head + Seq::new(i as nat, |k: int| t.placeholder));
        }
        tokens.push(t.inst_close);
        let ghost framed = head + Seq::new(placeholders as nat, |k: int| t.placeholder)
            + seq![t.inst_close];
        assert(tokens@ =~= framed);
        let mut j: usize = 0;
        while j < t.language_tag.len()
            invariant
                j <= t.language_tag@.len(),
                tokens@ == framed + t.language_tag@.take(j as int),
            decreases t.language_tag@.len() - j,
        {
            tokens.push(t.language_tag[j]);
            j = j + 1;
            assert(tokens@ =~= framed + t.language_tag@.take(j as int));
        }
        assert(t.language_tag@.take(j as int) =~= t.language_tag@);
        tokens.push(t.transcribe);
        assert(tokens@ =~= t.spec_prompt(placeholders as nat));
        proof {
            lemma_prompt_placeholders(*t, placeholders as nat);
        }
        Ok(PromptSequence { tokens, placeholder: t.placeholder, reserved: placeholders })
    }
}

} // verus!

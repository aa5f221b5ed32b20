//! The corpus: one text block for each file that was taken, in the order in
//! which the walk yielded the files, and one failure for each entry that had
//! to be left out.
//!
//! The walk and the reading of files are the caller's. The classifier says
//! which paths are to be read; the corpus takes each entry with what the
//! reading gave and decides what becomes of it.

use crate::classify::extension_of;
use crate::classify::is_document_or_source_code;
use crate::classify::path_eligible;
use crate::classify::path_extension;
use crate::docx::extracted;
use crate::docx::outcome_view;
use crate::docx::read;
use crate::docx::ExtractionError;
use crate::docx::ExtractionErrorView;
use vstd::prelude::*;
use vstd::string::StringExecFns;
use vstd::utf8::encode_utf8;

verus! {

/// One unit of corpus content.
#[derive(Debug)]
pub struct TextBlock {
    /// The path of the file that the text came from.
    pub path: String,
    /// The content-type tag: the path's extension, empty where it has none.
    pub tag: String,
    /// The text.
    pub text: String,
}

/// A block as a value.
pub struct BlockView {
    pub path: Seq<char>,
    pub tag: Seq<char>,
    pub text: Seq<char>,
}

impl View for TextBlock {
    type V = BlockView;

    open spec fn view(&self) -> BlockView {
        BlockView { path: self.path@, tag: self.tag@, text: self.text@ }
    }
}

/// A block as it is handed on: the path, then the text in a fence that
/// carries the tag, then a rule.
pub open spec fn rendered(block: BlockView) -> Seq<char> {
    block.path + "\n\n                    ```"@ + block.tag + "\n                    "@
        + block.text
        + "\n                    ```\n                    \n\n------------\n\n"@
}

/// The blocks as one string: each rendered, with a line break behind it.
pub open spec fn rendered_all(blocks: Seq<BlockView>) -> Seq<char>
    decreases blocks.len(),
{
    if blocks.len() == 0 {
        Seq::empty()
    } else {
        rendered_all(blocks.drop_last()) + rendered(blocks.last()) + "\n"@
    }
}

impl TextBlock {
    /// The block as one labelled string.
    pub fn render(&self) -> (out: String)
        ensures
            out@ == rendered(self@),
    {
        let mut out = String::new();
        out.append(self.path.as_str());
        out.append("\n\n                    ```");
        out.append(self.tag.as_str());
        out.append("\n                    ");
        out.append(self.text.as_str());
        out.append("\n                    ```\n                    \n\n------------\n\n");
        proof {
            assert(out@ =~= rendered(self@));
        }
        out
    }
}

/// An entry that was left out of the corpus, and why.
#[derive(Debug)]
pub enum Failure {
    /// The walk reported an error in place of an entry.
    Walk { detail: String },
    /// The content of an eligible file is not UTF-8 text.
    Decode { path: String },
    /// An eligible file could not be read at all.
    Read { path: String, detail: String },
    /// No text could be extracted from a document.
    Extraction { path: String, error: ExtractionError },
}

/// A failure as a value.
pub enum FailureView {
    Walk { detail: Seq<char> },
    Decode { path: Seq<char> },
    Read { path: Seq<char>, detail: Seq<char> },
    Extraction { path: Seq<char>, error: ExtractionErrorView },
}

impl View for Failure {
    type V = FailureView;

    open spec fn view(&self) -> FailureView {
        match self {
            Failure::Walk { detail } => FailureView::Walk { detail: detail@ },
            Failure::Decode { path } => FailureView::Decode { path: path@ },
            Failure::Read { path, detail } => FailureView::Read { path: path@, detail: detail@ },
            Failure::Extraction { path, error } => FailureView::Extraction {
                path: path@,
                error: error@,
            },
        }
    }
}

/// What reading a file gave.
#[derive(Debug)]
pub enum Reading {
    /// The content, as UTF-8 text.
    Text(String),
    /// The content is not UTF-8 text.
    NotUtf8,
    /// The file could not be read.
    Unreadable { detail: String },
}

/// A reading as a value.
pub enum ReadingView {
    Text(Seq<char>),
    NotUtf8,
    Unreadable { detail: Seq<char> },
}

impl View for Reading {
    type V = ReadingView;

    open spec fn view(&self) -> ReadingView {
        match self {
            Reading::Text(text) => ReadingView::Text(text@),
            Reading::NotUtf8 => ReadingView::NotUtf8,
            Reading::Unreadable { detail } => ReadingView::Unreadable { detail: detail@ },
        }
    }
}

/// The root of the walk could not be read: there is no corpus.
#[derive(Debug)]
pub struct RootUnreadable {
    pub detail: String,
}

/// One thing that the walk yielded, with what the caller got for it.
#[derive(Debug)]
pub enum WalkItem {
    /// The walk reported an error on the root itself.
    RootFailed { detail: String },
    /// The walk reported an error on an entry below the root.
    Failed { detail: String },
    /// A file, with what reading it gave. The reading of a file that is not
    /// eligible is not looked at.
    File { path: String, content: Reading },
    /// A document whose text was asked for, with the bytes of its container.
    Document { path: String, container: Vec<u8> },
}

/// An item of the walk as a value.
pub enum ItemView {
    RootFailed { detail: Seq<char> },
    Failed { detail: Seq<char> },
    File { path: Seq<char>, content: ReadingView },
    Document { path: Seq<char>, container: Seq<u8> },
}

impl View for WalkItem {
    type V = ItemView;

    open spec fn view(&self) -> ItemView {
        match self {
            WalkItem::RootFailed { detail } => ItemView::RootFailed { detail: detail@ },
            WalkItem::Failed { detail } => ItemView::Failed { detail: detail@ },
            WalkItem::File { path, content } => ItemView::File { path: path@, content: content@ },
            WalkItem::Document { path, container } => ItemView::Document {
                path: path@,
                container: container@,
            },
        }
    }
}

/// A corpus as a value: its blocks and its failures, each in the order in
/// which they came.
pub struct CorpusView {
    pub blocks: Seq<BlockView>,
    pub failures: Seq<FailureView>,
}

/// The content-type tag of a path.
pub open spec fn tag_of(path: Seq<char>) -> Seq<char> {
    match path_extension(path) {
        Some(ext) => ext,
        None => Seq::empty(),
    }
}

/// The block for a path and its text.
pub open spec fn block_for(path: Seq<char>, text: Seq<char>) -> BlockView {
    BlockView { path, tag: tag_of(path), text }
}

/// The corpus before the walk.
pub open spec fn empty_corpus() -> CorpusView {
    CorpusView { blocks: Seq::empty(), failures: Seq::empty() }
}

/// A corpus with one more block at its end.
pub open spec fn with_block(corpus: CorpusView, block: BlockView) -> CorpusView {
    CorpusView { blocks: corpus.blocks.push(block), failures: corpus.failures }
}

/// A corpus with one more failure at its end.
pub open spec fn with_failure(corpus: CorpusView, failure: FailureView) -> CorpusView {
    CorpusView { blocks: corpus.blocks, failures: corpus.failures.push(failure) }
}

/// The corpus after a file: an eligible file that was read adds its block,
/// an eligible file that could not be read adds a failure that says why, and
/// any other file changes nothing.
pub open spec fn after_file(corpus: CorpusView, path: Seq<char>, content: ReadingView) -> CorpusView {
    if path_eligible(path) {
        match content {
            ReadingView::Text(text) => with_block(corpus, block_for(path, text)),
            ReadingView::NotUtf8 => with_failure(corpus, FailureView::Decode { path }),
            ReadingView::Unreadable { detail } => with_failure(
                corpus,
                FailureView::Read { path, detail },
            ),
        }
    } else {
        corpus
    }
}

/// The corpus after an extraction: its text adds a block, its error a
/// failure.
pub open spec fn after_extraction(
    corpus: CorpusView,
    path: Seq<char>,
    outcome: Result<Seq<char>, ExtractionErrorView>,
) -> CorpusView {
    match outcome {
        Ok(text) => with_block(corpus, block_for(path, text)),
        Err(error) => with_failure(corpus, FailureView::Extraction { path, error }),
    }
}

/// The corpus after one item of the walk. A failure of the root leaves it as
/// it is: it ends the assembly.
pub open spec fn after_item(corpus: CorpusView, item: ItemView) -> CorpusView {
    match item {
        ItemView::RootFailed { detail } => corpus,
        ItemView::Failed { detail } => with_failure(corpus, FailureView::Walk { detail }),
        ItemView::File { path, content } => after_file(corpus, path, content),
        ItemView::Document { path, container } => after_extraction(
            corpus,
            path,
            extracted(container),
        ),
    }
}

/// The corpus of the items of a walk, taken one after another.
pub open spec fn assembled(items: Seq<ItemView>) -> CorpusView
    decreases items.len(),
{
    if items.len() == 0 {
        empty_corpus()
    } else {
        after_item(assembled(items.drop_last()), items.last())
    }
}

/// The items of a walk as values.
/// The first failure of the root among the items, if there is one.
pub open spec fn root_failure(items: Seq<ItemView>) -> Option<Seq<char>>
    decreases items.len(),
{
    if items.len() == 0 {
        None
    } else {
        match root_failure(items.drop_last()) {
            Some(detail) => Some(detail),
            None => match items.last() {
                ItemView::RootFailed { detail } => Some(detail),
                _ => None,
            },
        }
    }
}

/// The outcome of a whole walk: no corpus where the root failed, else the
/// corpus of the items.
pub open spec fn assembly(items: Seq<ItemView>) -> Result<CorpusView, Seq<char>> {
    match root_failure(items) {
        Some(detail) => Err(detail),
        None => Ok(assembled(items)),
    }
}

/// The outcome of an assembly as a value.
pub open spec fn assembly_view(outcome: Result<Corpus, RootUnreadable>) -> Result<
    CorpusView,
    Seq<char>,
> {
    match outcome {
        Ok(corpus) => Ok(corpus@),
        Err(fatal) => Err(fatal.detail@),
    }
}

pub open spec fn item_views(items: Seq<WalkItem>) -> Seq<ItemView> {
    items.map_values(|item: WalkItem| item@)
}

/// The number of bytes of a text in UTF-8.
pub open spec fn byte_len(text: Seq<char>) -> nat {
    encode_utf8(text).len()
}

/// The bytes of the texts of the blocks, added up.
pub open spec fn total_text_bytes(blocks: Seq<BlockView>) -> nat
    decreases blocks.len(),
{
    if blocks.len() == 0 {
        0
    } else {
        total_text_bytes(blocks.drop_last()) + byte_len(blocks.last().text)
    }
}

/// The ordered blocks of a corpus and the failures met on the way.
#[derive(Debug)]
pub struct Corpus {
    blocks: Vec<TextBlock>,
    failures: Vec<Failure>,
}

/// Blocks as values.
pub open spec fn block_views(blocks: Seq<TextBlock>) -> Seq<BlockView> {
    blocks.map_values(|block: TextBlock| block@)
}

/// Failures as values.
pub open spec fn failure_views(failures: Seq<Failure>) -> Seq<FailureView> {
    failures.map_values(|failure: Failure| failure@)
}

impl View for Corpus {
    type V = CorpusView;

    closed spec fn view(&self) -> CorpusView {
        CorpusView { blocks: block_views(self.blocks@), failures: failure_views(self.failures@) }
    }
}

impl Corpus {
    /// A corpus without blocks and without failures.
    pub fn new() -> (corpus: Corpus)
        ensures
            corpus@ == empty_corpus(),
    {
        let corpus = Corpus { blocks: Vec::new(), failures: Vec::new() };
        proof {
            assert(corpus@.blocks =~= Seq::empty());
            assert(corpus@.failures =~= Seq::empty());
        }
        corpus
    }

    fn push_block(&mut self, path: String, text: String)
        ensures
            final(self)@ == with_block(old(self)@, block_for(path@, text@)),
    {
        let tag = match extension_of(path.as_str()) {
            Some(ext) => String::from_str(ext),
            None => String::new(),
        };
        let block = TextBlock { path, tag, text };
        self.blocks.push(block);
        proof {
            assert(block_views(self.blocks@) =~= block_views(old(self).blocks@).push(block@));
        }
    }

    fn push_failure(&mut self, failure: Failure)
        ensures
            final(self)@ == with_failure(old(self)@, failure@),
    {
        self.failures.push(failure);
        proof {
            assert(failure_views(self.failures@) =~= failure_views(old(self).failures@).push(
                failure@,
            ));
        }
    }

    /// Takes an error that the walk reported on an entry below the root.
    pub fn add_walk_error(&mut self, detail: String)
        ensures
            final(self)@ == with_failure(old(self)@, (FailureView::Walk { detail: detail@ })),
    {
        self.push_failure(Failure::Walk { detail });
    }

    /// Takes a file that the walk yielded, with what reading it gave.
    pub fn add_file(&mut self, path: String, content: Reading)
        ensures
            final(self)@ == after_file(old(self)@, path@, content@),
    {
        if is_document_or_source_code(path.as_str()) {
            match content {
                Reading::Text(text) => self.push_block(path, text),
                Reading::NotUtf8 => self.push_failure(Failure::Decode { path }),
                Reading::Unreadable { detail } => self.push_failure(
                    Failure::Read { path, detail },
                ),
            }
        }
    }

    /// Takes the outcome of an extraction for the document at `path`.
    pub fn add_extracted(&mut self, path: String, outcome: Result<String, ExtractionError>)
        ensures
            final(self)@ == after_extraction(old(self)@, path@, outcome_view(outcome)),
    {
        match outcome {
            Ok(text) => self.push_block(path, text),
            Err(error) => self.push_failure(Failure::Extraction { path, error }),
        }
    }

    /// Extracts the text of the document at `path` from the bytes of its
    /// container and takes the outcome. A failure is recorded and leaves the
    /// blocks as they are.
    pub fn add_document(&mut self, path: String, container: &[u8])
        ensures
            final(self)@ == after_extraction(old(self)@, path@, extracted(container@)),
    {
        let outcome = read(container);
        self.add_extracted(path, outcome);
    }

    /// Takes one item of the walk. A failure of the root is handed back and
    /// leaves the corpus as it is; every other item is taken.
    pub fn add(&mut self, item: WalkItem) -> (taken: Result<(), RootUnreadable>)
        ensures
            final(self)@ == after_item(old(self)@, item@),
            match item@ {
                ItemView::RootFailed { detail } => taken is Err && taken->Err_0.detail@ == detail,
                _ => taken is Ok,
            },
    {
        match item {
            WalkItem::RootFailed { detail } => {
                return Err(RootUnreadable { detail });
            },
            WalkItem::Failed { detail } => self.add_walk_error(detail),
            WalkItem::File { path, content } => self.add_file(path, content),
            WalkItem::Document { path, container } => self.add_document(
                path,
                container.as_slice(),
            ),
        }
        Ok(())
    }

    /// The blocks, in the order in which they were taken.
    pub fn blocks(&self) -> (blocks: &Vec<TextBlock>)
        ensures
            block_views(blocks@) == self@.blocks,
    {
        &self.blocks
    }

    /// The failures, in the order in which they were met.
    pub fn failures(&self) -> (failures: &Vec<Failure>)
        ensures
            failure_views(failures@) == self@.failures,
    {
        &self.failures
    }

    /// The bytes of all the texts in UTF-8, added up.
    pub fn total_bytes(&self) -> (total: u128)
        ensures
            total == total_text_bytes(self@.blocks),
    {
        let ghost views = block_views(self.blocks@);
        let mut total: u128 = 0;
        let mut i: usize = 0;
        while i < self.blocks.len()
            invariant
                i <= self.blocks.len(),
                views == block_views(self.blocks@),
                total == total_text_bytes(views.take(i as int)),
                total <= i * usize::MAX,
            decreases self.blocks.len() - i,
        {
            let size = self.blocks[i].text.as_str().as_bytes().len();
            proof {
                assert(views.take(i + 1).drop_last() =~= views.take(i as int));
                assert(views.take(i + 1).last() == self.blocks@[i as int]@);
                assert(size == byte_len(self.blocks@[i as int]@.text));
                assert((i + 1) * usize::MAX == i * usize::MAX + usize::MAX) by (nonlinear_arith);
                assert((i + 1) * usize::MAX <= 0x1_0000_0000_0000_0000 * 0xffff_ffff_ffff_ffff)
                    by (nonlinear_arith)
                    requires
                        i + 1 <= 0x1_0000_0000_0000_0000,
                        usize::MAX <= 0xffff_ffff_ffff_ffff,
                ;
            }
            total = total + size as u128;
            i += 1;
        }
        proof {
            assert(views.take(self.blocks.len() as int) =~= views);
        }
        total
    }

    /// All the blocks as one string: each block as it is rendered, with a
    /// line break behind it.
    pub fn render(&self) -> (out: String)
        ensures
            out@ == rendered_all(self@.blocks),
    {
        let ghost views = block_views(self.blocks@);
        let mut out = String::new();
        let mut i: usize = 0;
        while i < self.blocks.len()
            invariant
                i <= self.blocks.len(),
                views == block_views(self.blocks@),
                out@ == rendered_all(views.take(i as int)),
            decreases self.blocks.len() - i,
        {
            let one = self.blocks[i].render();
            out.append(one.as_str());
            out.append("\n");
            proof {
                assert(views.take(i + 1).drop_last() =~= views.take(i as int));
                assert(views.take(i + 1).last() == self.blocks@[i as int]@);
            }
            i += 1;
        }
        proof {
            assert(views.take(self.blocks.len() as int) =~= views);
        }
        out
    }

    /// The number of blocks.
    pub fn block_count(&self) -> (count: usize)
        ensures
            count == self@.blocks.len(),
    {
        self.blocks.len()
    }

    /// The number of entries that were left out with a failure.
    pub fn error_count(&self) -> (count: usize)
        ensures
            count == self@.failures.len(),
    {
        self.failures.len()
    }
}

/// A failure of the root that stands among the first items stands among all
/// of them: later items do not undo it.
pub proof fn lemma_root_failure_stays(first: Seq<ItemView>, rest: Seq<ItemView>)
    requires
        root_failure(first) is Some,
    ensures
        root_failure(first + rest) == root_failure(first),
    decreases rest.len(),
{
    if rest.len() == 0 {
        assert(first + rest =~= first);
    } else {
        let whole = first + rest;
        assert(whole.drop_last() =~= first + rest.drop_last());
        lemma_root_failure_stays(first, rest.drop_last());
    }
}

/// Assembles the corpus of a walk from its items, in their order. Where the
/// walk failed on its root there is no corpus: the first such failure is
/// handed back.
pub fn assemble(items: Vec<WalkItem>) -> (outcome: Result<Corpus, RootUnreadable>)
    ensures
        assembly_view(outcome) == assembly(item_views(items@)),
{
    let mut corpus = Corpus::new();
    let ghost all = item_views(items@);
    for item in it: items
        invariant
            all == item_views(it.seq()),
            root_failure(all.take(it.index() as int)) is None,
            corpus@ == assembled(all.take(it.index() as int)),
    {
        proof {
            let taken = it.index() as int;
            assert(all.take(taken + 1).drop_last() =~= all.take(taken));
            assert(all.take(taken + 1).last() == item@);
        }
        match corpus.add(item) {
            Ok(()) => {},
            Err(fatal) => {
                proof {
                    let taken = it.index() as int;
                    assert(all =~= all.take(taken + 1) + all.skip(taken + 1));
                    lemma_root_failure_stays(all.take(taken + 1), all.skip(taken + 1));
                }
                return Err(fatal);
            },
        }
    }
    proof {
        assert(all.take(all.len() as int) =~= all);
    }
    Ok(corpus)
}

/// Whether an item leaves a trace in the corpus: a walk error below the
/// root, a document, or a file that is eligible.
pub open spec fn counted(item: ItemView) -> bool {
    match item {
        ItemView::RootFailed { detail } => false,
        ItemView::File { path, content } => path_eligible(path),
        _ => true,
    }
}

/// The number of items that leave a trace.
pub open spec fn counted_items(items: Seq<ItemView>) -> nat
    decreases items.len(),
{
    if items.len() == 0 {
        0
    } else {
        counted_items(items.drop_last()) + if counted(items.last()) {
            1nat
        } else {
            0nat
        }
    }
}

/// Whether an item gives a block: an eligible file that was read, or a
/// document whose text could be extracted.
pub open spec fn gives_block(item: ItemView) -> bool {
    match item {
        ItemView::RootFailed { detail } => false,
        ItemView::Failed { detail } => false,
        ItemView::File { path, content } => path_eligible(path) && content is Text,
        ItemView::Document { path, container } => extracted(container) is Ok,
    }
}

/// The block that an item gives.
pub open spec fn block_of(item: ItemView) -> BlockView
    recommends
        gives_block(item),
{
    match item {
        ItemView::File { path, content } => block_for(path, content->Text_0),
        ItemView::Document { path, container } => block_for(path, extracted(container)->Ok_0),
        _ => block_for(Seq::empty(), Seq::empty()),
    }
}

/// One item changes the corpus in one place at most: it adds its block, or
/// it adds one failure and leaves the blocks alone, or it is passed over.
pub proof fn lemma_one_item(corpus: CorpusView, item: ItemView)
    ensures
        gives_block(item) ==> after_item(corpus, item) == with_block(corpus, block_of(item)),
        !gives_block(item) && counted(item) ==> after_item(corpus, item).blocks == corpus.blocks
            && after_item(corpus, item).failures.len() == corpus.failures.len() + 1,
        !counted(item) ==> after_item(corpus, item) == corpus,
{
}

/// No entry is lost: the blocks and the failures together are as many as the
/// walk errors below the root, the documents and the eligible files.
pub proof fn lemma_every_item_is_accounted_for(items: Seq<ItemView>)
    ensures
        assembled(items).blocks.len() + assembled(items).failures.len() == counted_items(items),
    decreases items.len(),
{
    if items.len() > 0 {
        lemma_every_item_is_accounted_for(items.drop_last());
        lemma_one_item(assembled(items.drop_last()), items.last());
    }
}

/// What was assembled stays: the blocks and failures of a walk's first part
/// stand unchanged at the front of those of the whole walk.
pub proof fn lemma_earlier_items_stay(first: Seq<ItemView>, rest: Seq<ItemView>)
    ensures
        assembled(first).blocks.is_prefix_of(assembled(first + rest).blocks),
        assembled(first).failures.is_prefix_of(assembled(first + rest).failures),
    decreases rest.len(),
{
    if rest.len() == 0 {
        assert(first + rest =~= first);
    } else {
        let whole = first + rest;
        assert(whole.drop_last() =~= first + rest.drop_last());
        assert(whole.last() == rest.last());
        lemma_earlier_items_stay(first, rest.drop_last());
        lemma_one_item(assembled(whole.drop_last()), whole.last());
    }
}

/// Every block comes from an item of the walk that gives it, and the blocks
/// stand in the order of their items: there is a strictly rising choice of
/// items, one for each block.
pub proof fn lemma_blocks_follow_the_walk(items: Seq<ItemView>) -> (source: Seq<int>)
    ensures
        source.len() == assembled(items).blocks.len(),
        forall|k: int|
            0 <= k < source.len() ==> 0 <= #[trigger] source[k] < items.len() && gives_block(
                items[source[k]],
            ) && assembled(items).blocks[k] == block_of(items[source[k]]),
        forall|j: int, k: int| 0 <= j < k < source.len() ==> source[j] < source[k],
    decreases items.len(),
{
    if items.len() == 0 {
        Seq::empty()
    } else {
        let before = lemma_blocks_follow_the_walk(items.drop_last());
        lemma_one_item(assembled(items.drop_last()), items.last());
        if gives_block(items.last()) {
            before.push(items.len() - 1)
        } else {
            before
        }
    }
}

/// The total of the text bytes grows by the bytes of each block that is
/// added.
pub proof fn lemma_total_of_appended_block(blocks: Seq<BlockView>, block: BlockView)
    ensures
        total_text_bytes(blocks.push(block)) == total_text_bytes(blocks) + byte_len(block.text),
{
    assert(blocks.push(block).drop_last() =~= blocks);
}

} // verus!

//! Files that are put into the environment of a test before it is compiled.
use vstd::prelude::*;

use crate::outside::{path_equal, path_from_str, path_strip_prefix, path_to_str};
use crate::text::bytes_equal;

verus! {

/// The character between the parts of a path.
pub const SLASH: char = '/';

/// A path without the slashes at its beginning.
pub open spec fn relative(path: Seq<char>) -> Seq<char>
    decreases path.len(),
{
    if path.len() > 0 && path.first() == SLASH {
        relative(path.drop_first())
    } else {
        path
    }
}

/// A path that does not start at the root directory.
pub open spec fn is_relative(path: Seq<char>) -> bool {
    path.len() > 0 ==> path.first() != SLASH
}

/// Making a path relative cuts off nothing but slashes, and what is left is relative.
pub proof fn relative_path_is_a_tail(path: Seq<char>) -> (cut: int)
    ensures
        0 <= cut <= path.len(),
        relative(path) == path.skip(cut),
        forall|i: int| 0 <= i < cut ==> path[i] == SLASH,
        is_relative(relative(path)),
        is_relative(path) ==> relative(path) == path,
    decreases path.len(),
{
    if path.len() > 0 && path.first() == SLASH {
        let rest = path.drop_first();
        let cut = relative_path_is_a_tail(rest);
        assert(rest.skip(cut) =~= path.skip(cut + 1));
        assert forall|i: int| 0 <= i < cut + 1 implies path[i] == SLASH by {
            if i > 0 {
                assert(path[i] == rest[i - 1]);
            }
        }
        cut + 1
    } else {
        assert(path.skip(0) =~= path);
        0
    }
}

/// Cuts off the slashes at the beginning of a path.
fn without_slashes<'a>(path: &'a str) -> (r: &'a str)
    ensures
        r@ == relative(path@),
{
    let len: usize = path.unicode_len();
    let mut cut: usize = 0;
    assert(path@.skip(0) =~= path@);
    while cut < len && path.get_char(cut) == SLASH
        invariant
            len == path@.len(),
            cut <= len,
            relative(path@) == relative(path@.skip(cut as int)),
        decreases len - cut,
    {
        assert(path@.skip(cut as int).first() == path@[cut as int]);
        assert(path@.skip(cut as int).drop_first() =~= path@.skip(cut + 1));
        cut = cut + 1;
    }
    assert(cut < len ==> path@.skip(cut as int).first() == path@[cut as int]);
    assert(path@.subrange(cut as int, len as int) =~= path@.skip(cut as int));
    path.substring_char(cut, len)
}

/// What is left of an absolute path without its root directory, or `None` if the path is relative.
pub fn without_root(path: &std::path::PathBuf) -> (r: Option<std::path::PathBuf>)
    ensures
        r == crate::outside::path_without_prefix(*path, seq![SLASH]),
{
    let root = "/";
    proof {
        reveal_strlit("/");
        assert(root@ =~= seq![SLASH]);
    }
    path_strip_prefix(path, root)
}

/// The place inside the test environment that a path stands for: a relative path is taken as it is,
/// and an absolute one loses its root.  A path that is no text is left to
/// [`std::path::Path::strip_prefix`].
pub open spec fn inside(path: std::path::PathBuf) -> std::path::PathBuf {
    match crate::outside::path_text(path) {
        Some(text) => rootless(path, text),
        None => match crate::outside::path_without_prefix(path, seq![SLASH]) {
            Some(rest) => match crate::outside::path_text(rest) {
                Some(text) => rootless(rest, text),
                None => rest,
            },
            None => path,
        },
    }
}

/// A path with this text, without its root.
pub open spec fn rootless(path: std::path::PathBuf, text: Seq<char>) -> std::path::PathBuf {
    if is_relative(text) {
        path
    } else {
        crate::outside::path_of_text(relative(text))
    }
}

/// Where a file goes: a path relative to the directory that is used for the test environment.
///
/// An absolute path is made relative to the test environment, i.e., `/foo/bar` becomes
/// `<test-env>/foo/bar`.
#[derive(PartialEq, Eq, Debug)]
pub struct Destination {
    path: std::path::PathBuf,
}

impl View for Destination {
    type V = std::path::PathBuf;

    closed spec fn view(&self) -> std::path::PathBuf {
        self.path
    }
}

impl Destination {
    #[verifier::type_invariant]
    spec fn stays_inside(self) -> bool {
        crate::outside::path_text(self.path) matches Some(text) ==> is_relative(text)
    }

    /// Makes a destination of a path.
    pub fn new(path: std::path::PathBuf) -> (r: Destination)
        ensures
            r@ == inside(path),
    {
        let path = match path_to_str(&path) {
            Some(_) => path,
            None => {
                match without_root(&path) {
                    Some(rest) => rest,
                    None => path,
                }
            },
        };
        let cut = match path_to_str(&path) {
            Some(text) => {
                let rest = without_slashes(text);
                proof {
                    relative_path_is_a_tail(text@);
                }
                if rest.unicode_len() < text.unicode_len() {
                    Some(path_from_str(rest))
                } else {
                    None
                }
            },
            None => None,
        };
        match cut {
            Some(path) => Destination { path },
            None => Destination { path },
        }
    }

    /// The path.  Where it is text, it is relative.
    pub fn as_path(&self) -> (r: &std::path::PathBuf)
        ensures
            *r == self@,
            crate::outside::path_text(*r) matches Some(text) ==> is_relative(text),
    {
        proof {
            use_type_invariant(self);
        }
        &self.path
    }
}

/// A destination that was given as text is the text without the slashes at its beginning.
pub proof fn text_destinations_are_made_relative(path: std::path::PathBuf, text: Seq<char>)
    requires
        path == crate::outside::path_of_text(text),
        crate::outside::path_text(path) == Some(text),
    ensures
        inside(path) == crate::outside::path_of_text(relative(text)),
{
    relative_path_is_a_tail(text);
}

impl Clone for Destination {
    fn clone(&self) -> (r: Destination)
        ensures
            r == *self,
    {
        proof {
            use_type_invariant(self);
        }
        Destination { path: self.path.clone() }
    }
}

impl vstd::std_specs::convert::FromSpecImpl<&str> for Destination {
    open spec fn obeys_from_spec() -> bool {
        false
    }

    open spec fn from_spec(path: &str) -> Destination {
        arbitrary()
    }
}

impl From<&str> for Destination {
    fn from(path: &str) -> (r: Destination)
        ensures
            r@ == crate::outside::path_of_text(relative(path@)),
            crate::outside::path_text(r@) == Some(relative(path@)),
    {
        proof {
            relative_path_is_a_tail(path@);
        }
        Destination { path: path_from_str(without_slashes(path)) }
    }
}

impl vstd::std_specs::convert::FromSpecImpl<std::path::PathBuf> for Destination {
    open spec fn obeys_from_spec() -> bool {
        false
    }

    open spec fn from_spec(path: std::path::PathBuf) -> Destination {
        arbitrary()
    }
}

impl From<std::path::PathBuf> for Destination {
    fn from(path: std::path::PathBuf) -> (r: Destination)
        ensures
            r@ == inside(path),
    {
        Destination::new(path)
    }
}

/// The content of a file that belongs to a context.
#[derive(PartialEq, Eq, Debug)]
pub enum FileContent {
    /// The file or directory at this path is copied when a test is compiled.
    Path(std::path::PathBuf),
    /// These bytes are written.
    Bytes(Vec<u8>),
}

impl FileContent {
    /// The content of the file at `path`, as it is when a test is compiled.
    pub fn path(path: std::path::PathBuf) -> (r: FileContent)
        ensures
            r == FileContent::Path(path),
    {
        FileContent::Path(path)
    }

    /// A text.
    pub fn string(text: &str) -> (r: FileContent)
        ensures
            r matches FileContent::Bytes(bytes) && bytes@ == vstd::utf8::encode_utf8(text@),
    {
        FileContent::Bytes(text.as_bytes_vec())
    }

    /// Some bytes.
    pub fn bytes(bytes: Vec<u8>) -> (r: FileContent)
        ensures
            r == FileContent::Bytes(bytes),
    {
        FileContent::Bytes(bytes)
    }
}

impl Clone for FileContent {
    fn clone(&self) -> (r: FileContent)
        ensures
            match *self {
                FileContent::Path(path) => r == FileContent::Path(path),
                FileContent::Bytes(bytes) => r matches FileContent::Bytes(copy) && copy@ == bytes@,
            },
    {
        match self {
            FileContent::Path(path) => FileContent::Path(path.clone()),
            FileContent::Bytes(bytes) => {
                FileContent::Bytes(vstd::slice::slice_to_vec(bytes.as_slice()))
            },
        }
    }
}

impl vstd::std_specs::convert::FromSpecImpl<std::path::PathBuf> for FileContent {
    open spec fn obeys_from_spec() -> bool {
        true
    }

    open spec fn from_spec(path: std::path::PathBuf) -> FileContent {
        FileContent::Path(path)
    }
}

impl From<std::path::PathBuf> for FileContent {
    fn from(path: std::path::PathBuf) -> (r: FileContent) {
        FileContent::Path(path)
    }
}

impl vstd::std_specs::convert::FromSpecImpl<Vec<u8>> for FileContent {
    open spec fn obeys_from_spec() -> bool {
        true
    }

    open spec fn from_spec(bytes: Vec<u8>) -> FileContent {
        FileContent::Bytes(bytes)
    }
}

impl From<Vec<u8>> for FileContent {
    fn from(bytes: Vec<u8>) -> (r: FileContent) {
        FileContent::Bytes(bytes)
    }
}

impl vstd::std_specs::convert::FromSpecImpl<&[u8]> for FileContent {
    open spec fn obeys_from_spec() -> bool {
        false
    }

    open spec fn from_spec(bytes: &[u8]) -> FileContent {
        arbitrary()
    }
}

impl From<&[u8]> for FileContent {
    fn from(bytes: &[u8]) -> (r: FileContent)
        ensures
            r matches FileContent::Bytes(copy) && copy@ == bytes@,
    {
        FileContent::Bytes(vstd::slice::slice_to_vec(bytes))
    }
}

/// A file that belongs to a context: its content, and where it goes.
#[derive(PartialEq, Eq, Debug)]
pub struct FileConfig {
    /// The content.
    pub src: FileContent,
    /// Where the file goes.
    pub dest: Destination,
}

impl FileConfig {
    /// A file with the content `src` that goes to `dest`.
    pub fn new<S: Into<FileContent>, D: Into<Destination>>(src: S, dest: D) -> (r: FileConfig)
        ensures
            call_ensures(<S as Into<FileContent>>::into, (src,), r.src),
            call_ensures(<D as Into<Destination>>::into, (dest,), r.dest),
    {
        FileConfig { src: src.into(), dest: dest.into() }
    }

    /// The content.
    pub fn src(&self) -> (r: &FileContent)
        ensures
            *r == self.src,
    {
        &self.src
    }

    /// Where the file goes.
    pub fn dest(&self) -> (r: &Destination)
        ensures
            *r == self.dest,
    {
        &self.dest
    }
}

impl Clone for FileConfig {
    fn clone(&self) -> (r: FileConfig)
        ensures
            cloned(self.src, r.src),
            cloned(self.dest, r.dest),
    {
        FileConfig { src: self.src.clone(), dest: self.dest.clone() }
    }
}

impl<S: Into<FileContent>, D: Into<Destination>> vstd::std_specs::convert::FromSpecImpl<(S, D)> for FileConfig {
    open spec fn obeys_from_spec() -> bool {
        false
    }

    open spec fn from_spec(value: (S, D)) -> FileConfig {
        arbitrary()
    }
}

impl<S: Into<FileContent>, D: Into<Destination>> From<(S, D)> for FileConfig {
    fn from(value: (S, D)) -> (r: FileConfig)
        ensures
            call_ensures(<S as Into<FileContent>>::into, (value.0,), r.src),
            call_ensures(<D as Into<Destination>>::into, (value.1,), r.dest),
    {
        FileConfig::new(value.0, value.1)
    }
}

/// The content of a file that belongs to one run.  It is borrowed for as long as the run takes to
/// be compiled, and may come from a reader of the type `R`.
#[derive(Debug)]
pub enum BorrowedFileContent<'a, R = ()> {
    /// The file or directory at this path is copied when the test is compiled.
    Path(&'a std::path::PathBuf),
    /// These bytes are written.
    Bytes(&'a [u8]),
    /// Everything that the reader has to give is written.
    Reader(R),
}

impl<'a, R> BorrowedFileContent<'a, R> {
    /// The content of the file at `path`, as it is when the test is compiled.
    pub fn path(path: &'a std::path::PathBuf) -> (r: BorrowedFileContent<'a, R>)
        ensures
            r == BorrowedFileContent::<'a, R>::Path(path),
    {
        BorrowedFileContent::Path(path)
    }

    /// A text.
    pub fn string(text: &'a str) -> (r: BorrowedFileContent<'a, R>)
        ensures
            r matches BorrowedFileContent::Bytes(bytes) && bytes@ == vstd::utf8::encode_utf8(text@),
    {
        BorrowedFileContent::Bytes(text.as_bytes())
    }

    /// Some bytes.
    pub fn bytes(bytes: &'a [u8]) -> (r: BorrowedFileContent<'a, R>)
        ensures
            r == BorrowedFileContent::<'a, R>::Bytes(bytes),
    {
        BorrowedFileContent::Bytes(bytes)
    }

    /// Whatever `reader` has to give.
    pub fn reader(reader: R) -> (r: BorrowedFileContent<'a, R>)
        ensures
            r == BorrowedFileContent::<'a, R>::Reader(reader),
    {
        BorrowedFileContent::Reader(reader)
    }
}

/// Contents are equal if they are equal paths or equal bytes.  A reader is equal to nothing: what it
/// will give is not known.
impl<'a, R> vstd::std_specs::cmp::PartialEqSpecImpl for BorrowedFileContent<'a, R> {
    open spec fn obeys_eq_spec() -> bool {
        true
    }

    open spec fn eq_spec(&self, other: &BorrowedFileContent<'a, R>) -> bool {
        match (*self, *other) {
            (BorrowedFileContent::Path(a), BorrowedFileContent::Path(b)) => {
                crate::outside::paths_equal(*a, *b)
            },
            (BorrowedFileContent::Bytes(a), BorrowedFileContent::Bytes(b)) => a@ == b@,
            _ => false,
        }
    }
}

impl<'a, R> PartialEq for BorrowedFileContent<'a, R> {
    fn eq(&self, other: &BorrowedFileContent<'a, R>) -> (r: bool) {
        match (self, other) {
            (BorrowedFileContent::Path(a), BorrowedFileContent::Path(b)) => path_equal(a, b),
            (BorrowedFileContent::Bytes(a), BorrowedFileContent::Bytes(b)) => bytes_equal(a, b),
            _ => false,
        }
    }
}

impl<'a, R> vstd::std_specs::convert::FromSpecImpl<&'a std::path::PathBuf> for BorrowedFileContent<'a, R> {
    open spec fn obeys_from_spec() -> bool {
        true
    }

    open spec fn from_spec(path: &'a std::path::PathBuf) -> BorrowedFileContent<'a, R> {
        BorrowedFileContent::Path(path)
    }
}

impl<'a, R> From<&'a std::path::PathBuf> for BorrowedFileContent<'a, R> {
    fn from(path: &'a std::path::PathBuf) -> (r: BorrowedFileContent<'a, R>) {
        BorrowedFileContent::Path(path)
    }
}

impl<'a, R> vstd::std_specs::convert::FromSpecImpl<&'a [u8]> for BorrowedFileContent<'a, R> {
    open spec fn obeys_from_spec() -> bool {
        true
    }

    open spec fn from_spec(bytes: &'a [u8]) -> BorrowedFileContent<'a, R> {
        BorrowedFileContent::Bytes(bytes)
    }
}

impl<'a, R> From<&'a [u8]> for BorrowedFileContent<'a, R> {
    fn from(bytes: &'a [u8]) -> (r: BorrowedFileContent<'a, R>) {
        BorrowedFileContent::Bytes(bytes)
    }
}

/// A file that belongs to one run: its content, and where it goes.
#[derive(Debug, PartialEq)]
pub struct BorrowedFileConfig<'a, R = ()> {
    /// The content.
    pub src: BorrowedFileContent<'a, R>,
    /// Where the file goes.
    pub dest: Destination,
}

impl<'a, R> BorrowedFileConfig<'a, R> {
    /// A file with the content `src` that goes to `dest`.
    pub fn new<S: Into<BorrowedFileContent<'a, R>>, D: Into<Destination>>(src: S, dest: D) -> (r:
        BorrowedFileConfig<'a, R>)
        ensures
            call_ensures(<S as Into<BorrowedFileContent<'a, R>>>::into, (src,), r.src),
            call_ensures(<D as Into<Destination>>::into, (dest,), r.dest),
    {
        BorrowedFileConfig { src: src.into(), dest: dest.into() }
    }

    /// Where the file goes.
    pub fn dest(&self) -> (r: &Destination)
        ensures
            *r == self.dest,
    {
        &self.dest
    }
}

impl<'a, R, S: Into<BorrowedFileContent<'a, R>>, D: Into<Destination>> vstd::std_specs::convert::FromSpecImpl<(S, D)> for BorrowedFileConfig<'a, R> {
    open spec fn obeys_from_spec() -> bool {
        false
    }

    open spec fn from_spec(value: (S, D)) -> BorrowedFileConfig<'a, R> {
        arbitrary()
    }
}

impl<'a, R, S: Into<BorrowedFileContent<'a, R>>, D: Into<Destination>> From<(S, D)> for BorrowedFileConfig<'a, R> {
    fn from(value: (S, D)) -> (r: BorrowedFileConfig<'a, R>)
        ensures
            call_ensures(<S as Into<BorrowedFileContent<'a, R>>>::into, (value.0,), r.src),
            call_ensures(<D as Into<Destination>>::into, (value.1,), r.dest),
    {
        BorrowedFileConfig::new(value.0, value.1)
    }
}

/// Adding files one after the other is the same as adding them together.
pub proof fn adding_files_in_steps_is_adding_them_at_once<F>(
    files: Seq<F>,
    with_one: Seq<F>,
    with_two: Seq<F>,
)
    requires
        with_one.len() == files.len() + 1,
        with_one.drop_last() == files,
        with_two.len() == with_one.len() + 1,
        with_two.drop_last() == with_one,
    ensures
        with_two == files + seq![with_one.last(), with_two.last()],
{
    assert forall|i: int| 0 <= i < with_two.len() implies with_two[i] == (files + seq![
        with_one.last(),
        with_two.last(),
    ])[i] by {
        if i < with_one.len() {
            assert(with_two[i] == with_two.drop_last()[i]);
        }
        if i < files.len() {
            assert(with_one[i] == with_one.drop_last()[i]);
        }
    }
    assert(with_two =~= files + seq![with_one.last(), with_two.last()]);
}

/// A destination that is given as text is that text without the slashes at its beginning: nothing but
/// slashes is cut off, and none of them is left.
pub proof fn destinations_lose_their_leading_slashes(text: &str, dest: Destination) -> (cut: int)
    requires
        call_ensures(<Destination as From<&str>>::from, (text,), dest),
    ensures
        0 <= cut <= text@.len(),
        forall|i: int| 0 <= i < cut ==> text@[i] == '/',
        cut < text@.len() ==> text@[cut] != '/',
        crate::outside::path_text(dest@) == Some(text@.skip(cut)),
        dest@ == crate::outside::path_of_text(text@.skip(cut)),
{
    let cut = relative_path_is_a_tail(text@);
    if cut < text@.len() {
        assert(text@.skip(cut).first() == text@[cut]);
    }
    cut
}

/// A destination that is given as a path stays as it is if it is relative text, and loses the slashes
/// at its beginning if it is absolute text.
pub proof fn paths_lose_their_leading_slashes(
    path: std::path::PathBuf,
    text: Seq<char>,
    dest: Destination,
) -> (cut: int)
    requires
        call_ensures(Destination::new, (path,), dest) || call_ensures(
            <Destination as From<std::path::PathBuf>>::from,
            (path,),
            dest,
        ),
        crate::outside::path_text(path) == Some(text),
    ensures
        0 <= cut <= text.len(),
        forall|i: int| 0 <= i < cut ==> text[i] == '/',
        cut < text.len() ==> text[cut] != '/',
        cut == 0 ==> dest@ == path,
        cut > 0 ==> dest@ == crate::outside::path_of_text(text.skip(cut)),
{
    let cut = relative_path_is_a_tail(text);
    if cut < text.len() {
        assert(text.skip(cut).first() == text[cut]);
    }
    cut
}

/// Where a destination is text, it never starts at the root directory.
pub proof fn destinations_never_start_at_the_root(dest: Destination, path: &std::path::PathBuf)
    requires
        call_ensures(Destination::as_path, (&dest,), path),
    ensures
        *path == dest@,
        crate::outside::path_text(*path) matches Some(text) ==> (text.len() > 0 ==> text[0] != '/'),
{
}

/// Contents are what they are made from: a path is that path, a text is its bytes, and bytes are those
/// bytes.
pub proof fn contents_are_what_they_are_made_from(
    path: std::path::PathBuf,
    text: &str,
    bytes: Vec<u8>,
    slice: &[u8],
    r: FileContent,
)
    ensures
        call_ensures(FileContent::path, (path,), r) ==> r == FileContent::Path(path),
        call_ensures(<FileContent as From<std::path::PathBuf>>::from, (path,), r) ==> r
            == FileContent::Path(path),
        call_ensures(FileContent::string, (text,), r) ==> (r matches FileContent::Bytes(content)
            && content@ == vstd::utf8::encode_utf8(text@)),
        call_ensures(FileContent::bytes, (bytes,), r) ==> (r matches FileContent::Bytes(content)
            && content@ == bytes@),
        call_ensures(<FileContent as From<Vec<u8>>>::from, (bytes,), r) ==> (
        r matches FileContent::Bytes(content) && content@ == bytes@),
        call_ensures(<FileContent as From<&[u8]>>::from, (slice,), r) ==> (
        r matches FileContent::Bytes(content) && content@ == slice@),
{
}

/// Borrowed contents are what they are made from.
pub proof fn borrowed_contents_are_what_they_are_made_from<'a, R>(
    path: &'a std::path::PathBuf,
    text: &'a str,
    bytes: &'a [u8],
    reader: R,
    r: BorrowedFileContent<'a, R>,
)
    ensures
        call_ensures(BorrowedFileContent::<'a, R>::path, (path,), r) ==> r
            == BorrowedFileContent::<'a, R>::Path(path),
        call_ensures(<BorrowedFileContent<'a, R> as From<&'a std::path::PathBuf>>::from, (path,), r)
            ==> r == BorrowedFileContent::<'a, R>::Path(path),
        call_ensures(BorrowedFileContent::<'a, R>::string, (text,), r) ==> (
        r matches BorrowedFileContent::Bytes(content) && content@ == vstd::utf8::encode_utf8(text@)),
        call_ensures(BorrowedFileContent::<'a, R>::bytes, (bytes,), r) ==> (
        r matches BorrowedFileContent::Bytes(content) && content@ == bytes@),
        call_ensures(<BorrowedFileContent<'a, R> as From<&'a [u8]>>::from, (bytes,), r) ==> (
        r matches BorrowedFileContent::Bytes(content) && content@ == bytes@),
        call_ensures(BorrowedFileContent::<'a, R>::reader, (reader,), r) ==> r
            == BorrowedFileContent::<'a, R>::Reader(reader),
{
}

/// Contents are equal exactly if they are equal paths or the same bytes; a reader is equal to nothing,
/// not even to itself.
pub proof fn contents_are_compared_by_kind<'a, R>(
    a: BorrowedFileContent<'a, R>,
    b: BorrowedFileContent<'a, R>,
    r: bool,
)
    requires
        call_ensures(<BorrowedFileContent<'a, R> as PartialEq>::eq, (&a, &b), r),
    ensures
        a is Reader || b is Reader ==> !r,
        a is Path && b is Bytes ==> !r,
        a is Bytes && b is Path ==> !r,
        a is Path && b is Path ==> r == crate::outside::paths_equal(*a->Path_0, *b->Path_0),
        a is Bytes && b is Bytes ==> (r <==> a->Bytes_0@ == b->Bytes_0@),
{
}

/// A file keeps its content and its destination, each as it is converted on its own.
pub proof fn files_keep_content_and_destination<'a, R>(
    content: FileContent,
    dest: &str,
    file: FileConfig,
    borrowed: BorrowedFileContent<'a, R>,
    borrowed_file: BorrowedFileConfig<'a, R>,
)
    requires
        call_ensures(FileConfig::new::<FileContent, &str>, (content, dest), file) || call_ensures(
            <FileConfig as From<(FileContent, &str)>>::from,
            ((content, dest),),
            file,
        ),
        call_ensures(
            BorrowedFileConfig::<'a, R>::new::<BorrowedFileContent<'a, R>, &str>,
            (borrowed, dest),
            borrowed_file,
        ) || call_ensures(
            <BorrowedFileConfig<'a, R> as From<(BorrowedFileContent<'a, R>, &str)>>::from,
            ((borrowed, dest),),
            borrowed_file,
        ),
    ensures
        file.src == content,
        call_ensures(<Destination as From<&str>>::from, (dest,), file.dest),
        borrowed_file.src == borrowed,
        call_ensures(<Destination as From<&str>>::from, (dest,), borrowed_file.dest),
{
}

/// What is read from a file is what stands in it.
pub proof fn files_are_read_as_they_are<'a, R>(
    file: FileConfig,
    src: &FileContent,
    dest: &Destination,
    borrowed: BorrowedFileConfig<'a, R>,
    borrowed_dest: &Destination,
)
    requires
        call_ensures(FileConfig::src, (&file,), src),
        call_ensures(FileConfig::dest, (&file,), dest),
        call_ensures(BorrowedFileConfig::<'a, R>::dest, (&borrowed,), borrowed_dest),
    ensures
        file.src == *src,
        file.dest == *dest,
        borrowed.dest == *borrowed_dest,
{
}

/// A destination that is given as a path that is no text loses its root directory if it has one, and
/// stays as it is if it has none.
pub proof fn paths_that_are_no_text_lose_their_root(
    path: std::path::PathBuf,
    rest: Option<std::path::PathBuf>,
    dest: Destination,
)
    requires
        call_ensures(without_root, (&path,), rest),
        call_ensures(Destination::new, (path,), dest) || call_ensures(
            <Destination as From<std::path::PathBuf>>::from,
            (path,),
            dest,
        ),
        crate::outside::path_text(path) is None,
    ensures
        rest == crate::outside::path_without_prefix(path, seq!['/']),
        rest is None ==> dest@ == path,
        rest matches Some(rest) ==> match crate::outside::path_text(rest) {
            None => dest@ == rest,
            Some(text) => text.len() == 0 || text[0] != '/' ==> dest@ == rest,
        },
{
}

/// Copies of files are the same as what they are copies of.
pub proof fn copies_of_files_are_the_same(
    dest: Destination,
    dest_copy: Destination,
    content: FileContent,
    content_copy: FileContent,
    file: FileConfig,
    file_copy: FileConfig,
)
    requires
        call_ensures(<Destination as Clone>::clone, (&dest,), dest_copy),
        call_ensures(<FileContent as Clone>::clone, (&content,), content_copy),
        call_ensures(<FileConfig as Clone>::clone, (&file,), file_copy),
    ensures
        dest_copy@ == dest@,
        content matches FileContent::Path(path) ==> content_copy == FileContent::Path(path),
        content matches FileContent::Bytes(bytes) ==> (content_copy matches FileContent::Bytes(copy)
            && copy@ == bytes@),
        file_copy.dest@ == file.dest@,
        file.src matches FileContent::Path(path) ==> file_copy.src == FileContent::Path(path),
        file.src matches FileContent::Bytes(bytes) ==> (file_copy.src matches FileContent::Bytes(copy)
            && copy@ == bytes@),
{
}

/// A file is made from its content and its destination, each as it is converted on its own, however
/// it is made.
pub proof fn files_are_what_they_are_made_from<
    'a,
    R,
    S: Into<FileContent>,
    B: Into<BorrowedFileContent<'a, R>>,
    D: Into<Destination>,
>(
    content: S,
    borrowed: B,
    dest: D,
    file: FileConfig,
    borrowed_file: BorrowedFileConfig<'a, R>,
)
    requires
        call_ensures(FileConfig::new::<S, D>, (content, dest), file) || call_ensures(
            <FileConfig as From<(S, D)>>::from,
            ((content, dest),),
            file,
        ),
        call_ensures(BorrowedFileConfig::<'a, R>::new::<B, D>, (borrowed, dest), borrowed_file)
            || call_ensures(
            <BorrowedFileConfig<'a, R> as From<(B, D)>>::from,
            ((borrowed, dest),),
            borrowed_file,
        ),
    ensures
        call_ensures(<S as Into<FileContent>>::into, (content,), file.src),
        call_ensures(<D as Into<Destination>>::into, (dest,), file.dest),
        call_ensures(
            <B as Into<BorrowedFileContent<'a, R>>>::into,
            (borrowed,),
            borrowed_file.src,
        ),
        call_ensures(<D as Into<Destination>>::into, (dest,), borrowed_file.dest),
{
}

} // verus!

//! Multipart ingestion: a state machine over an ordered sequence of named
//! fields, each arriving as a stream of byte chunks. Only the fields
//! `message` (optional text) and `file` (binary content under a declared
//! filename) are tolerated; the file content is required and must be
//! non-empty.

use vstd::prelude::*;
use crate::strings::bytes_to_utf8_string;

verus! {

/// Why ingestion of a multipart body was refused.
#[derive(Debug)]
pub enum IngestError {
    /// A field carried a name other than `message` or `file`; the name is
    /// kept for the error report.
    UnexpectedField(String),
    /// The accumulated `message` field was not valid UTF-8.
    MessageNotUtf8,
    /// A `file` field arrived without a non-empty filename.
    FilenameMissing,
    /// The stream ended with no `file` content at all.
    NoFileProvided,
}

/// Where the machine stands between events.
#[derive(Clone, Copy, Debug, PartialEq, Eq, Structural)]
pub enum Phase {
    /// Between fields: ready for a field announcement or end of stream.
    AwaitingField,
    /// Buffering the chunks of a `message` field.
    ReadingMessage,
    /// Buffering the chunks of a `file` field.
    ReadingFile,
}

/// What a successful ingestion yields: the optional text (empty when no
/// `message` field arrived), and the attachment's declared filename and
/// non-empty content.
pub struct MultipartBody {
    pub message: String,
    pub filename: String,
    pub content: Vec<u8>,
}

/// The ingestion state machine. The surrounding HTTP layer announces each
/// field, feeds its chunks, closes it, and finally asks for the result;
/// any error is terminal for the request.
pub struct MultipartIngestor {
    pub phase: Phase,
    /// Chunks of the `message` field being read.
    pub message_buf: Vec<u8>,
    /// The decoded text of a completed `message` field.
    pub message: Option<String>,
    /// The declared filename of the `file` field.
    pub filename: String,
    /// The accumulated `file` content, across all its chunks.
    pub file_content: Vec<u8>,
}

impl MultipartIngestor {
    pub fn new() -> (r: MultipartIngestor)
        ensures
            r.phase == Phase::AwaitingField,
            r.message_buf@ == Seq::<u8>::empty(),
            r.message is None,
            r.filename@ == Seq::<char>::empty(),
            r.file_content@ == Seq::<u8>::empty(),
    {
        MultipartIngestor {
            phase: Phase::AwaitingField,
            message_buf: Vec::new(),
            message: None,
            filename: String::new(),
            file_content: Vec::new(),
        }
    }

    /// A new field is announced, with the filename its disposition declared,
    /// if any. A name other than `message` or `file` is refused at once,
    /// whatever came before; a `file` field without a non-empty filename is
    /// refused as well. On an error the machine is left unchanged.
    pub fn begin_field(&mut self, name: &String, filename: Option<String>) -> (r: Result<
        (),
        IngestError,
    >)
        requires
            old(self).phase == Phase::AwaitingField,
        ensures
            name@ != "message"@ && name@ != "file"@ ==> (r matches Err(
                IngestError::UnexpectedField(n),
            ) && n@ == name@ && *final(self) == *old(self)),
            name@ == "message"@ ==> r is Ok && *final(self) == (MultipartIngestor {
                phase: Phase::ReadingMessage,
                message_buf: final(self).message_buf,
                ..*old(self)
            }) && final(self).message_buf@ == Seq::<u8>::empty(),
            name@ == "file"@ ==> (match filename {
                Some(f) => if f@.len() > 0 {
                    r is Ok && *final(self) == (MultipartIngestor {
                        phase: Phase::ReadingFile,
                        filename: final(self).filename,
                        ..*old(self)
                    }) && final(self).filename@ == f@
                } else {
                    r == Err::<(), IngestError>(IngestError::FilenameMissing) && *final(self)
                        == *old(self)
                },
                None => r == Err::<(), IngestError>(IngestError::FilenameMissing) && *final(self)
                    == *old(self),
            }),
    {
        proof {
            reveal_strlit("message");
            reveal_strlit("file");
            assert("message"@.len() == 7);
            assert("file"@.len() == 4);
        }
        let message_name: String = "message".to_owned();
        let file_name: String = "file".to_owned();
        if name.eq(&message_name) {
            self.phase = Phase::ReadingMessage;
            self.message_buf = Vec::new();
            Ok(())
        } else if name.eq(&file_name) {
            match filename {
                Some(f) => {
                    if f.as_str().is_empty() {
                        Err(IngestError::FilenameMissing)
                    } else {
                        self.phase = Phase::ReadingFile;
                        self.filename = f;
                        Ok(())
                    }
                },
                None => Err(IngestError::FilenameMissing),
            }
        } else {
            Err(IngestError::UnexpectedField(name.clone()))
        }
    }

    /// One chunk of the field being read is buffered: message chunks into
    /// the message buffer, file chunks onto the accumulated file content.
    pub fn chunk(&mut self, mut data: Vec<u8>)
        requires
            old(self).phase != Phase::AwaitingField,
        ensures
            old(self).phase == Phase::ReadingMessage ==> *final(self) == (MultipartIngestor {
                message_buf: final(self).message_buf,
                ..*old(self)
            }) && final(self).message_buf@ == old(self).message_buf@ + data@,
            old(self).phase == Phase::ReadingFile ==> *final(self) == (MultipartIngestor {
                file_content: final(self).file_content,
                ..*old(self)
            }) && final(self).file_content@ == old(self).file_content@ + data@,
    {
        match self.phase {
            Phase::ReadingMessage => self.message_buf.append(&mut data),
            Phase::ReadingFile => self.file_content.append(&mut data),
            Phase::AwaitingField => (),
        }
    }

    /// The field being read ends. A completed `message` field is validated
    /// as UTF-8 and becomes the text of the body; bytes that are not valid
    /// UTF-8 are refused. A completed `file` field needs no validation here.
    pub fn end_field(&mut self) -> (r: Result<(), IngestError>)
        requires
            old(self).phase != Phase::AwaitingField,
        ensures
            old(self).phase == Phase::ReadingFile ==> r is Ok && *final(self) == (
            MultipartIngestor { phase: Phase::AwaitingField, ..*old(self) }),
            old(self).phase == Phase::ReadingMessage && vstd::utf8::valid_utf8(
                old(self).message_buf@,
            ) ==> (r is Ok && *final(self) == (MultipartIngestor {
                phase: Phase::AwaitingField,
                message: final(self).message,
                ..*old(self)
            }) && (final(self).message matches Some(m) && m@ == vstd::utf8::decode_utf8(
                old(self).message_buf@,
            ))),
            old(self).phase == Phase::ReadingMessage && !vstd::utf8::valid_utf8(
                old(self).message_buf@,
            ) ==> (r == Err::<(), IngestError>(IngestError::MessageNotUtf8) && *final(self) == *old(
                self,
            )),
    {
        match self.phase {
            Phase::ReadingMessage => {
                match bytes_to_utf8_string(self.message_buf.as_slice()) {
                    Some(text) => {
                        self.message = Some(text);
                        self.phase = Phase::AwaitingField;
                        Ok(())
                    },
                    None => Err(IngestError::MessageNotUtf8),
                }
            },
            _ => {
                self.phase = Phase::AwaitingField;
                Ok(())
            },
        }
    }

    /// End of the stream: an ingestion that saw no `file` content at all is
    /// refused; otherwise the body is handed out, with an empty text when no
    /// `message` field arrived.
    pub fn finish(self) -> (r: Result<MultipartBody, IngestError>)
        requires
            self.phase == Phase::AwaitingField,
        ensures
            self.file_content@.len() == 0 ==> r == Err::<MultipartBody, IngestError>(
                IngestError::NoFileProvided,
            ),
            self.file_content@.len() > 0 ==> (r matches Ok(b) && b.filename == self.filename
                && b.content == self.file_content && (match self.message {
                Some(m) => b.message == m,
                None => b.message@ == Seq::<char>::empty(),
            })),
    {
        if self.file_content.is_empty() {
            return Err(IngestError::NoFileProvided);
        }
        let message = match self.message {
            Some(m) => m,
            None => String::new(),
        };
        Ok(MultipartBody { message, filename: self.filename, content: self.file_content })
    }
}

} // verus!

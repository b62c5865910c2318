//! The pages that are sent as mail.

use vstd::prelude::*;
use vstd::string::StringExecFns;

verus! {

#[derive(Debug, Clone)]
pub struct EmailTemplate01 {
    pub email_add: String,
    pub email_subj: String,
    pub email_msg: String,
}

/// How the page looks.
pub const STYLE: &'static str = "<style>
        body {
            font-family: Arial, sans-serif;
            background-color: #f9f9f9;
            margin: 0;
            padding: 0;
        }
        .container {
            width: 100%;
            max-width: 600px;
            margin: 0 auto;
            background-color: #ffffff;
            padding: 20px;
            border-radius: 8px;
            box-shadow: 0 4px 6px rgba(0, 0, 0, 0.1);
        }
        .header {
            text-align: center;
            margin-bottom: 20px;
        }
        .header h1 {
            font-size: 24px;
            color: #333333;
        }
        .content {
            font-size: 16px;
            line-height: 1.6;
            color: #333333;
        }
        .content p {
            margin: 10px 0;
        }
        .footer {
            text-align: center;
            font-size: 14px;
            color: #777777;
            margin-top: 20px;
        }
        .footer a {
            color: #007BFF;
            text-decoration: none;
        }
    </style>";

/// The page, up to its style.
pub const HEAD_OPEN: &'static str = "<!DOCTYPE html>
        <html lang='en'>
        <head>
            <meta charset='UTF-8'>
            <meta name='viewport' content='width=device-width, initial-scale=1.0'>
            <title>Contact Us</title>
            ";

/// From the style to the page's body.
pub const HEAD_CLOSE: &'static str = "
        </head>";

/// The body, up to the sender's address.
pub const BODY_OPEN: &'static str = "
            <body>
                <div class='container'>
                    <div class='header'>
                        <h1>Contact Us Message</h1>
                    </div>

                    <div class='content'>
                        <p><strong>Email:</strong> ";

/// From the sender's address to the subject.
pub const BEFORE_SUBJECT: &'static str = "</p>
                        <p><strong>Subject:</strong> ";

/// From the subject to the message.
pub const BEFORE_MESSAGE: &'static str = "</p>
                        <p><strong>Message:</strong></p>
                        <p>";

/// From the message to the end of the page.
pub const BODY_CLOSE: &'static str = "</p>
                    </div>
                </div>

            </body>
            </html>
            ";

/// The page for a message that came in through the contact form. The three
/// texts stand in it as they are: nothing is escaped.
pub open spec fn page_01(email_add: Seq<char>, email_subj: Seq<char>, email_msg: Seq<char>) -> Seq<
    char,
> {
    HEAD_OPEN@ + STYLE@ + HEAD_CLOSE@ + BODY_OPEN@ + email_add + BEFORE_SUBJECT@ + email_subj
        + BEFORE_MESSAGE@ + email_msg + BODY_CLOSE@
}

/// Writes the page for a message that came in through the contact form.
pub fn template_01(email_data: EmailTemplate01) -> (page: String)
    ensures
        page@ == page_01(email_data.email_add@, email_data.email_subj@, email_data.email_msg@),
{
    let mut page = String::from_str(HEAD_OPEN);
    page.append(STYLE);
    page.append(HEAD_CLOSE);
    page.append(BODY_OPEN);
    page.append(email_data.email_add.as_str());
    page.append(BEFORE_SUBJECT);
    page.append(email_data.email_subj.as_str());
    page.append(BEFORE_MESSAGE);
    page.append(email_data.email_msg.as_str());
    page.append(BODY_CLOSE);
    page
}

} // verus!
